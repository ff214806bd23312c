//! The frame renderer: a state machine over one fence, one semaphore and one
//! command pool, driving each frame through
//! `Idle -> FenceReset -> FrameAcquired -> Recording -> Submitted -> Presented -> Idle`.
//! The host performs the device, swapchain and window calls and hands their
//! outcomes back; the renderer decides every transition and owns the
//! synchronization protocol.

use vstd::prelude::*;

use crate::command::{
    submittable, Command, CommandBuffer, CommandPool, ClearColor, Rect, RecordState,
};
use crate::error::FrameError;
use crate::events::{WindowEvent, is_quit_event};
use crate::sync::{Fence, Semaphore};

verus! {

/// Where the renderer stands within the current frame iteration.
#[derive(Clone, Copy, Debug, PartialEq, Eq, Structural)]
pub enum Phase {
    Idle,
    FenceReset,
    FrameAcquired,
    Recording,
    Submitted,
    Presented,
}

/// A named phase of device execution, used to scope a submission's
/// wait-dependency.
#[derive(Clone, Copy, Debug, PartialEq, Eq, Structural)]
pub enum PipelineStage {
    TopOfPipe,
    VertexInput,
    ColorAttachmentOutput,
    BottomOfPipe,
}

/// What a submission hands to the queue: which buffer (by pool epoch) renders
/// into which framebuffer, at which stage it waits on the acquire semaphore,
/// and that it signals the frame fence on completion.
#[derive(Clone, Copy, Debug, PartialEq, Eq, Structural)]
pub struct Submission {
    pub buffer_epoch: u64,
    pub frame_index: usize,
    pub wait_stage: PipelineStage,
    pub signals_fence: bool,
}

/// The fixed per-frame parameters: window dimensions, the vertex range of the
/// one draw call, the push-constant word, the clear color, and how many
/// framebuffers the swapchain rotates through.
#[derive(Clone, Copy, Debug, PartialEq, Eq, Structural)]
pub struct FrameConfig {
    pub width: u16,
    pub height: u16,
    pub vertex_count: u32,
    pub push_constant: u32,
    pub clear: ClearColor,
    pub framebuffer_count: usize,
}

/// The swapchain's answer to an acquire request.
#[derive(Clone, Copy, Debug, PartialEq, Eq, Structural)]
pub enum AcquireOutcome {
    Acquired { frame_index: usize },
    OutOfDate,
    DeviceLost,
}

/// The device's answer to blocking on the frame fence.
#[derive(Clone, Copy, Debug, PartialEq, Eq, Structural)]
pub enum WaitOutcome {
    Signaled,
    TimedOut,
    DeviceLost,
}

/// The queue's answer to a present request.
#[derive(Clone, Copy, Debug, PartialEq, Eq, Structural)]
pub enum PresentOutcome {
    Presented,
    OutOfDate,
    DeviceLost,
}

/// What the loop should do next at a frame boundary.
#[derive(Clone, Copy, Debug, PartialEq, Eq, Structural)]
pub enum LoopDecision {
    RenderFrame,
    Stop,
}

/// The record of one completed frame iteration: how often the fence was
/// reset and how often it was waited on during that iteration.
pub ghost struct FrameLog {
    pub fence_resets: int,
    pub fence_waits: int,
}

/// The viewport the renderer always records: the full window.
pub open spec fn viewport(config: FrameConfig) -> Rect {
    Rect { x: 0, y: 0, w: config.width, h: config.height }
}

/// The exact instruction sequence recorded for one frame.
pub open spec fn frame_commands(config: FrameConfig, frame_index: usize) -> Seq<Command> {
    seq![
        Command::SetViewport { area: viewport(config) },
        Command::SetScissor { area: viewport(config) },
        Command::PushConstants { value: config.push_constant },
        Command::BindPipeline,
        Command::BindDescriptorSet,
        Command::BindVertexBuffer,
        Command::BeginRenderPass { frame_index, area: viewport(config), clear: config.clear },
        Command::Draw {
            first_vertex: 0,
            vertex_count: config.vertex_count,
            first_instance: 0,
            instance_count: 1,
        },
        Command::EndRenderPass,
    ]
}

/// The single-in-flight frame renderer.
pub struct FrameRenderer {
    pub config: FrameConfig,
    pub phase: Phase,
    pub fence: Fence,
    pub acquire_semaphore: Semaphore,
    pub pool: CommandPool,
    pub buffer: Option<CommandBuffer>,
    pub frame_index: usize,
    pub quit_requested: bool,
    pub frames_completed: u64,
    pub resets_this_frame: u64,
    pub waits_this_frame: u64,
    pub history: Ghost<Seq<FrameLog>>,
    pub submissions: Ghost<Seq<Submission>>,
}

impl FrameRenderer {
    /// The buffer held in the `Recording` phase: finished, from the current
    /// pool epoch, holding exactly the frame's instruction sequence.
    pub open spec fn recorded_buffer_wf(self) -> bool {
        &&& self.buffer matches Some(cb)
        &&& self.buffer matches Some(cb) ==> {
            &&& cb.state == RecordState::Finished
            &&& cb.pool_epoch == self.pool.epoch
            &&& cb.commands@ == frame_commands(self.config, self.frame_index)
        }
    }

    /// What each phase guarantees of the fence, the semaphore, the pool, the
    /// per-iteration counters and the held buffer.
    pub open spec fn phase_wf(self) -> bool {
        match self.phase {
            Phase::Idle => {
                &&& self.resets_this_frame == 0
                &&& self.waits_this_frame == 0
                &&& !self.acquire_semaphore.pending
                &&& self.buffer is None
            },
            Phase::FenceReset => {
                &&& !self.fence.signaled
                &&& self.resets_this_frame == 1
                &&& self.waits_this_frame == 0
                &&& !self.acquire_semaphore.pending
                &&& self.buffer is None
            },
            Phase::FrameAcquired => {
                &&& !self.fence.signaled
                &&& self.resets_this_frame == 1
                &&& self.waits_this_frame == 0
                &&& self.acquire_semaphore.pending
                &&& self.frame_index < self.config.framebuffer_count
                &&& self.buffer is None
            },
            Phase::Recording => {
                &&& !self.fence.signaled
                &&& self.resets_this_frame == 1
                &&& self.waits_this_frame == 0
                &&& self.acquire_semaphore.pending
                &&& self.frame_index < self.config.framebuffer_count
                &&& self.pool.recorded == 1
                &&& self.recorded_buffer_wf()
            },
            Phase::Submitted => {
                &&& self.resets_this_frame == 1
                &&& self.waits_this_frame <= 1
                &&& (self.fence.signaled <==> self.waits_this_frame == 1)
                &&& !self.acquire_semaphore.pending
                &&& self.frame_index < self.config.framebuffer_count
                &&& self.pool.recorded == 1
                &&& self.buffer is None
            },
            Phase::Presented => {
                &&& self.fence.signaled
                &&& self.resets_this_frame == 1
                &&& self.waits_this_frame == 1
                &&& !self.acquire_semaphore.pending
                &&& self.pool.recorded == 1
                &&& self.buffer is None
            },
        }
    }

    /// Every completed iteration reset the fence exactly once and waited on
    /// it exactly once.
    pub open spec fn history_wf(self) -> bool {
        &&& self.history@.len() == self.frames_completed
        &&& forall|k: int| 0 <= k < self.history@.len() ==> {
            &&& (#[trigger] self.history@[k]).fence_resets == 1
            &&& self.history@[k].fence_waits == 1
        }
    }

    /// Every submission ever produced waits at bottom-of-pipe and signals
    /// the frame fence.
    pub open spec fn submissions_wf(self) -> bool {
        forall|k: int| 0 <= k < self.submissions@.len() ==> {
            &&& (#[trigger] self.submissions@[k]).wait_stage == PipelineStage::BottomOfPipe
            &&& self.submissions@[k].signals_fence
        }
    }

    /// Well-formedness: established by `new`, preserved by every step.
    pub open spec fn wf(self) -> bool {
        &&& self.config.framebuffer_count > 0
        &&& self.phase_wf()
        &&& self.history_wf()
        &&& self.submissions_wf()
    }

    /// Create a renderer at startup: fence unsignaled (as the device creates
    /// it), no acquire outstanding, an untouched pool, no frame in flight.
    pub fn new(config: FrameConfig) -> (r: FrameRenderer)
        requires
            config.framebuffer_count > 0,
        ensures
            r.wf(),
            r.config == config,
            r.phase == Phase::Idle,
            !r.fence.signaled,
            !r.quit_requested,
            r.frames_completed == 0,
            r.pool.epoch == 0,
            r.pool.recorded == 0,
            r.history@.len() == 0,
            r.submissions@.len() == 0,
    {
        FrameRenderer {
            config,
            phase: Phase::Idle,
            fence: Fence::new(false),
            acquire_semaphore: Semaphore::new(),
            pool: CommandPool::new(),
            buffer: None,
            frame_index: 0,
            quit_requested: false,
            frames_completed: 0,
            resets_this_frame: 0,
            waits_this_frame: 0,
            history: Ghost(Seq::empty()),
            submissions: Ghost(Seq::empty()),
        }
    }

    /// Take note of one window event at a frame boundary: a quit event makes
    /// the loop stop before the next frame. Nothing else changes.
    pub fn poll_event(&mut self, ev: WindowEvent)
        requires
            old(self).wf(),
            old(self).phase == Phase::Idle,
        ensures
            final(self).wf(),
            final(self).quit_requested == (old(self).quit_requested || is_quit_event(ev)),
            *final(self) == (FrameRenderer { quit_requested: final(self).quit_requested, ..*old(self) }),
    {
        if crate::events::quit_event(&ev) {
            self.quit_requested = true;
        }
    }

    /// Take note of a whole batch of window events, in order.
    pub fn poll_events(&mut self, events: &Vec<WindowEvent>)
        requires
            old(self).wf(),
            old(self).phase == Phase::Idle,
        ensures
            final(self).wf(),
            final(self).quit_requested == (old(self).quit_requested
                || crate::events::any_quit_event(events@)),
            *final(self) == (FrameRenderer { quit_requested: final(self).quit_requested, ..*old(self) }),
    {
        let mut i: usize = 0;
        #[verifier::loop_isolation(false)]
        while i < events.len()
            invariant
                i <= events@.len(),
                self.quit_requested == (old(self).quit_requested
                    || exists|k: int| 0 <= k < i && is_quit_event(events@[k])),
                *self == (FrameRenderer { quit_requested: self.quit_requested, ..*old(self) }),
            decreases events@.len() - i,
        {
            let ev = events[i];
            if crate::events::quit_event(&ev) {
                self.quit_requested = true;
                proof {
                    assert((i as int) < events@.len() && is_quit_event(events@[i as int]));
                }
            }
            i = i + 1;
        }
    }

    /// Decide, at a frame boundary, whether to render another frame or stop.
    pub fn next_step(&self) -> (d: LoopDecision)
        requires
            self.wf(),
            self.phase == Phase::Idle,
        ensures
            d == (if self.quit_requested {
                LoopDecision::Stop
            } else {
                LoopDecision::RenderFrame
            }),
    {
        if self.quit_requested {
            LoopDecision::Stop
        } else {
            LoopDecision::RenderFrame
        }
    }

    /// `Idle -> FenceReset`: reset the frame fence to the unsignaled state.
    /// There is no error path; resetting an already-unsignaled fence changes
    /// nothing. The host mirrors this with the device's fence reset.
    pub fn begin_frame(&mut self)
        requires
            old(self).wf(),
            old(self).phase == Phase::Idle,
        ensures
            final(self).wf(),
            final(self).phase == Phase::FenceReset,
            final(self).fence == old(self).fence.spec_reset(),
            !final(self).fence.signaled,
            final(self).resets_this_frame == 1,
            final(self).waits_this_frame == 0,
            final(self).config == old(self).config,
            final(self).pool == old(self).pool,
            final(self).quit_requested == old(self).quit_requested,
            final(self).frames_completed == old(self).frames_completed,
            final(self).history@ == old(self).history@,
            final(self).submissions@ == old(self).submissions@,
    {
        self.fence.reset();
        self.resets_this_frame = 1;
        self.phase = Phase::FenceReset;
    }

    /// `FenceReset -> FrameAcquired`: the swapchain's answer to the acquire
    /// request made with the frame semaphore. On success the semaphore has an
    /// acquire outstanding and the returned index picks the framebuffer; on
    /// failure the frame is abandoned, the renderer returns to `Idle`, and
    /// the error says exactly which failure the swapchain reported.
    pub fn frame_acquired(&mut self, outcome: AcquireOutcome) -> (r: Result<(), FrameError>)
        requires
            old(self).wf(),
            old(self).phase == Phase::FenceReset,
            outcome matches AcquireOutcome::Acquired { frame_index }
                ==> frame_index < old(self).config.framebuffer_count,
        ensures
            final(self).wf(),
            match outcome {
                AcquireOutcome::Acquired { frame_index } => {
                    &&& r is Ok
                    &&& final(self).phase == Phase::FrameAcquired
                    &&& final(self).frame_index == frame_index
                    &&& final(self).acquire_semaphore.pending
                },
                AcquireOutcome::OutOfDate => {
                    &&& r == Result::<(), FrameError>::Err(FrameError::SurfaceOutOfDate)
                    &&& final(self).phase == Phase::Idle
                },
                AcquireOutcome::DeviceLost => {
                    &&& r == Result::<(), FrameError>::Err(FrameError::DeviceLost)
                    &&& final(self).phase == Phase::Idle
                },
            },
            final(self).config == old(self).config,
            final(self).pool == old(self).pool,
            final(self).quit_requested == old(self).quit_requested,
            final(self).frames_completed == old(self).frames_completed,
            final(self).history@ == old(self).history@,
            final(self).submissions@ == old(self).submissions@,
    {
        match outcome {
            AcquireOutcome::Acquired { frame_index } => {
                self.acquire_semaphore.attach_to_acquire();
                self.frame_index = frame_index;
                self.phase = Phase::FrameAcquired;
                Ok(())
            },
            AcquireOutcome::OutOfDate => {
                self.abandon_frame();
                Err(FrameError::SurfaceOutOfDate)
            },
            AcquireOutcome::DeviceLost => {
                self.abandon_frame();
                Err(FrameError::DeviceLost)
            },
        }
    }

    /// Abandon the frame in flight after a failed device or swapchain call:
    /// back to `Idle` with nothing outstanding. The abandoned iteration is
    /// not counted as completed.
    fn abandon_frame(&mut self)
        requires
            old(self).wf(),
        ensures
            final(self).wf(),
            final(self).phase == Phase::Idle,
            final(self).config == old(self).config,
            final(self).pool == old(self).pool,
            final(self).fence == old(self).fence,
            final(self).quit_requested == old(self).quit_requested,
            final(self).frames_completed == old(self).frames_completed,
            final(self).history@ == old(self).history@,
            final(self).submissions@ == old(self).submissions@,
    {
        self.acquire_semaphore = Semaphore::new();
        self.buffer = None;
        self.resets_this_frame = 0;
        self.waits_this_frame = 0;
        self.phase = Phase::Idle;
    }

    /// `FrameAcquired -> Recording`: reset the command pool — invalidating
    /// every buffer recorded in an earlier epoch — and record the frame's one
    /// command buffer: viewport and scissor over the whole window, the
    /// push-constant word, the pipeline, descriptor-set and vertex-buffer
    /// binds, the render pass against the acquired framebuffer, the one draw
    /// call, and nothing else.
    pub fn record_frame(&mut self)
        requires
            old(self).wf(),
            old(self).phase == Phase::FrameAcquired,
            old(self).pool.epoch < u64::MAX,
        ensures
            final(self).wf(),
            final(self).phase == Phase::Recording,
            final(self).pool.epoch == old(self).pool.epoch + 1,
            final(self).pool.recorded == 1,
            final(self).buffer matches Some(cb) && cb.commands@ == frame_commands(
                old(self).config,
                old(self).frame_index,
            ) && cb.state == RecordState::Finished && cb.pool_epoch == final(self).pool.epoch,
            final(self).frame_index == old(self).frame_index,
            final(self).config == old(self).config,
            final(self).quit_requested == old(self).quit_requested,
            final(self).frames_completed == old(self).frames_completed,
            final(self).history@ == old(self).history@,
            final(self).submissions@ == old(self).submissions@,
    {
        self.pool.reset();
        let mut cb = self.pool.acquire_buffer();
        let area = Rect { x: 0, y: 0, w: self.config.width, h: self.config.height };
        cb.set_viewport(area);
        cb.set_scissor(area);
        cb.push_constants(self.config.push_constant);
        cb.bind_pipeline();
        cb.bind_descriptor_set();
        cb.bind_vertex_buffer();
        cb.begin_render_pass(self.frame_index, area, self.config.clear);
        cb.draw(0, self.config.vertex_count, 0, 1);
        cb.end_render_pass();
        cb.finish();
        proof {
            assert(cb.commands@ =~= frame_commands(self.config, self.frame_index));
        }
        self.buffer = Some(cb);
        self.phase = Phase::Recording;
    }

    /// `Recording -> Submitted`: hand the finished buffer to the queue with a
    /// wait-dependency on the acquire semaphore at the bottom-of-pipe stage —
    /// no earlier stage ever waits on it — and a signal-dependency on the
    /// frame fence. The semaphore is consumed by this submission.
    pub fn submit_frame(&mut self) -> (s: Submission)
        requires
            old(self).wf(),
            old(self).phase == Phase::Recording,
        ensures
            final(self).wf(),
            final(self).phase == Phase::Submitted,
            s.wait_stage == PipelineStage::BottomOfPipe,
            s.signals_fence,
            s.buffer_epoch == old(self).pool.epoch,
            s.frame_index == old(self).frame_index,
            !final(self).acquire_semaphore.pending,
            !final(self).fence.signaled,
            final(self).submissions@ == old(self).submissions@.push(s),
            final(self).frame_index == old(self).frame_index,
            final(self).config == old(self).config,
            final(self).pool == old(self).pool,
            final(self).quit_requested == old(self).quit_requested,
            final(self).frames_completed == old(self).frames_completed,
            final(self).history@ == old(self).history@,
    {
        let s = Submission {
            buffer_epoch: self.pool.epoch,
            frame_index: self.frame_index,
            wait_stage: PipelineStage::BottomOfPipe,
            signals_fence: true,
        };
        self.acquire_semaphore.consume();
        self.buffer = None;
        self.submissions = Ghost(self.submissions@.push(s));
        self.phase = Phase::Submitted;
        s
    }

    /// `Submitted`, waiting: the device's answer to blocking on the frame
    /// fence. On success the fence is signaled and this counts as the
    /// iteration's one wait; a timeout or device loss abandons the frame.
    pub fn fence_waited(&mut self, outcome: WaitOutcome) -> (r: Result<(), FrameError>)
        requires
            old(self).wf(),
            old(self).phase == Phase::Submitted,
            !old(self).fence.signaled,
        ensures
            final(self).wf(),
            match outcome {
                WaitOutcome::Signaled => {
                    &&& r is Ok
                    &&& final(self).phase == Phase::Submitted
                    &&& final(self).fence.signaled
                    &&& final(self).waits_this_frame == 1
                },
                WaitOutcome::TimedOut => {
                    &&& r == Result::<(), FrameError>::Err(FrameError::FenceTimeout)
                    &&& final(self).phase == Phase::Idle
                },
                WaitOutcome::DeviceLost => {
                    &&& r == Result::<(), FrameError>::Err(FrameError::DeviceLost)
                    &&& final(self).phase == Phase::Idle
                },
            },
            final(self).config == old(self).config,
            final(self).quit_requested == old(self).quit_requested,
            final(self).frames_completed == old(self).frames_completed,
            final(self).history@ == old(self).history@,
            final(self).submissions@ == old(self).submissions@,
    {
        match outcome {
            WaitOutcome::Signaled => {
                self.fence.mark_signaled();
                self.waits_this_frame = 1;
                Ok(())
            },
            WaitOutcome::TimedOut => {
                self.abandon_frame();
                Err(FrameError::FenceTimeout)
            },
            WaitOutcome::DeviceLost => {
                self.abandon_frame();
                Err(FrameError::DeviceLost)
            },
        }
    }

    /// `Submitted -> Presented`: the queue's answer to the present request
    /// for the rendered frame. Only legal once the fence wait has completed;
    /// a failure abandons the frame.
    pub fn present_frame(&mut self, outcome: PresentOutcome) -> (r: Result<(), FrameError>)
        requires
            old(self).wf(),
            old(self).phase == Phase::Submitted,
            old(self).fence.signaled,
        ensures
            final(self).wf(),
            match outcome {
                PresentOutcome::Presented => {
                    &&& r is Ok
                    &&& final(self).phase == Phase::Presented
                    &&& final(self).fence.signaled
                    &&& final(self).pool.recorded == 1
                    &&& final(self).resets_this_frame == 1
                    &&& final(self).waits_this_frame == 1
                },
                PresentOutcome::OutOfDate => {
                    &&& r == Result::<(), FrameError>::Err(FrameError::SurfaceOutOfDate)
                    &&& final(self).phase == Phase::Idle
                },
                PresentOutcome::DeviceLost => {
                    &&& r == Result::<(), FrameError>::Err(FrameError::DeviceLost)
                    &&& final(self).phase == Phase::Idle
                },
            },
            final(self).config == old(self).config,
            final(self).quit_requested == old(self).quit_requested,
            final(self).frames_completed == old(self).frames_completed,
            final(self).history@ == old(self).history@,
            final(self).submissions@ == old(self).submissions@,
    {
        match outcome {
            PresentOutcome::Presented => {
                self.phase = Phase::Presented;
                Ok(())
            },
            PresentOutcome::OutOfDate => {
                self.abandon_frame();
                Err(FrameError::SurfaceOutOfDate)
            },
            PresentOutcome::DeviceLost => {
                self.abandon_frame();
                Err(FrameError::DeviceLost)
            },
        }
    }

    /// `Presented -> Idle`: loop back for the next iteration. The completed
    /// iteration enters the history with its one fence reset and one fence
    /// wait; no resources are torn down.
    pub fn next_frame(&mut self)
        requires
            old(self).wf(),
            old(self).phase == Phase::Presented,
            old(self).frames_completed < u64::MAX,
        ensures
            final(self).wf(),
            final(self).phase == Phase::Idle,
            final(self).frames_completed == old(self).frames_completed + 1,
            final(self).history@ == old(self).history@.push(
                FrameLog { fence_resets: 1, fence_waits: 1 },
            ),
            final(self).fence == old(self).fence,
            final(self).config == old(self).config,
            final(self).pool == old(self).pool,
            final(self).quit_requested == old(self).quit_requested,
            final(self).submissions@ == old(self).submissions@,
    {
        self.history = Ghost(
            self.history@.push(
                FrameLog {
                    fence_resets: self.resets_this_frame as int,
                    fence_waits: self.waits_this_frame as int,
                },
            ),
        );
        self.resets_this_frame = 0;
        self.waits_this_frame = 0;
        self.buffer = None;
        self.frames_completed = self.frames_completed + 1;
        self.phase = Phase::Idle;
    }
}

/// Fence discipline: in every completed frame iteration, the fence was reset
/// exactly once and waited on exactly once — no double-wait, no missed reset.
pub proof fn lemma_one_reset_one_wait_per_frame(r: FrameRenderer, k: int)
    requires
        r.wf(),
        0 <= k < r.history@.len(),
    ensures
        r.history@[k].fence_resets == 1,
        r.history@[k].fence_waits == 1,
{
}

/// The wait follows the reset within an iteration: while a frame is
/// submitted and its fence not yet signaled, the iteration's reset has
/// already happened and its wait has not.
pub proof fn lemma_wait_follows_reset(r: FrameRenderer)
    requires
        r.wf(),
        r.phase == Phase::Submitted,
        !r.fence.signaled,
    ensures
        r.resets_this_frame == 1,
        r.waits_this_frame == 0,
{
}

/// The loop can only stop between frames: the stop decision exists only in
/// the `Idle` phase, and there nothing is in flight — no buffer is held, no
/// acquire is outstanding, and the iteration counters are cleared, so every
/// begun frame has completed its wait and present (or was abandoned) first.
pub proof fn lemma_stop_only_between_frames(r: FrameRenderer)
    requires
        r.wf(),
        r.phase == Phase::Idle,
    ensures
        r.buffer is None,
        !r.acquire_semaphore.pending,
        r.resets_this_frame == 0,
        r.waits_this_frame == 0,
{
}

/// A command buffer recorded for an earlier iteration can never be bound or
/// resubmitted once `record_frame` has reset the pool for a newer one: the
/// pool's epoch has moved past the buffer's, so the submission precondition
/// fails forever after.
pub proof fn lemma_prior_iteration_buffer_rejected(cb: CommandBuffer, r: FrameRenderer)
    requires
        r.wf(),
        cb.pool_epoch < r.pool.epoch,
    ensures
        !submittable(cb, r.pool),
{
}

/// Every submission the renderer has ever produced waits on the acquire
/// semaphore at the bottom-of-pipe stage — no earlier stage — and signals
/// the frame fence.
pub proof fn lemma_submissions_wait_at_bottom_of_pipe(r: FrameRenderer, k: int)
    requires
        r.wf(),
        0 <= k < r.submissions@.len(),
    ensures
        r.submissions@[k].wait_stage == PipelineStage::BottomOfPipe,
        r.submissions@[k].signals_fence,
{
}

} // verus!
