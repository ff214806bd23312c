//! A model of the command recorder: a pool that hands out transient,
//! single-use command buffers, and the ordered instructions a buffer holds.
//! Resetting the pool moves it to a new epoch and invalidates every buffer
//! recorded in an earlier one.

use vstd::prelude::*;

verus! {

/// An axis-aligned rectangle in framebuffer coordinates, used for both the
/// viewport and the scissor.
#[derive(Clone, Copy, Debug, PartialEq, Eq, Structural)]
pub struct Rect {
    pub x: u16,
    pub y: u16,
    pub w: u16,
    pub h: u16,
}

/// The color the render pass clears its attachment to, one value per channel.
#[derive(Clone, Copy, Debug, PartialEq, Eq, Structural)]
pub struct ClearColor {
    pub r: u8,
    pub g: u8,
    pub b: u8,
    pub a: u8,
}

/// One recorded instruction of a command buffer.
#[derive(Clone, Copy, Debug, PartialEq, Eq, Structural)]
pub enum Command {
    SetViewport { area: Rect },
    SetScissor { area: Rect },
    PushConstants { value: u32 },
    BindPipeline,
    BindDescriptorSet,
    BindVertexBuffer,
    BeginRenderPass { frame_index: usize, area: Rect, clear: ClearColor },
    Draw { first_vertex: u32, vertex_count: u32, first_instance: u32, instance_count: u32 },
    EndRenderPass,
}

/// Where a command buffer stands in its recording life.
#[derive(Clone, Copy, Debug, PartialEq, Eq, Structural)]
pub enum RecordState {
    Open,
    InRenderPass,
    Finished,
}

/// A transient command buffer: the instructions recorded so far, the state of
/// the recording, and the pool epoch it was created in.
#[derive(Debug)]
pub struct CommandBuffer {
    pub pool_epoch: u64,
    pub state: RecordState,
    pub commands: Vec<Command>,
}

/// The pool command buffers are acquired from. `epoch` counts its resets;
/// `recorded` counts the buffers handed out since the last reset.
#[derive(Clone, Copy, Debug, PartialEq, Eq, Structural)]
pub struct CommandPool {
    pub epoch: u64,
    pub recorded: u64,
}

/// A buffer may be handed to the queue only if its recording is finished and
/// the pool has not been reset since it was created.
pub open spec fn submittable(cb: CommandBuffer, pool: CommandPool) -> bool {
    cb.state == RecordState::Finished && cb.pool_epoch == pool.epoch
}

/// A command buffer recorded before a pool reset can never satisfy the
/// submission precondition again: the reset moved the pool to a newer epoch.
pub proof fn lemma_stale_buffer_never_submittable(cb: CommandBuffer, pool: CommandPool)
    requires
        cb.pool_epoch < pool.epoch,
    ensures
        !submittable(cb, pool),
{
}

impl CommandPool {
    /// Create a pool with no buffers recorded.
    pub fn new() -> (p: CommandPool)
        ensures
            p.epoch == 0,
            p.recorded == 0,
    {
        CommandPool { epoch: 0, recorded: 0 }
    }

    /// Reset the pool: every buffer recorded so far becomes invalid, and the
    /// count of recorded buffers starts over.
    pub fn reset(&mut self)
        requires
            old(self).epoch < u64::MAX,
        ensures
            final(self).epoch == old(self).epoch + 1,
            final(self).recorded == 0,
    {
        self.epoch = self.epoch + 1;
        self.recorded = 0;
    }

    /// Hand out a fresh, empty command buffer belonging to the current epoch.
    pub fn acquire_buffer(&mut self) -> (cb: CommandBuffer)
        requires
            old(self).recorded < u64::MAX,
        ensures
            final(self).epoch == old(self).epoch,
            final(self).recorded == old(self).recorded + 1,
            cb.pool_epoch == old(self).epoch,
            cb.state == RecordState::Open,
            cb.commands@ == Seq::<Command>::empty(),
    {
        self.recorded = self.recorded + 1;
        CommandBuffer { pool_epoch: self.epoch, state: RecordState::Open, commands: Vec::new() }
    }
}

impl CommandBuffer {
    /// True if this buffer may be submitted against the given pool.
    pub fn usable_with(&self, pool: &CommandPool) -> (b: bool)
        ensures
            b == submittable(*self, *pool),
    {
        self.state == RecordState::Finished && self.pool_epoch == pool.epoch
    }

    /// Record a viewport change.
    pub fn set_viewport(&mut self, area: Rect)
        requires
            old(self).state == RecordState::Open,
        ensures
            final(self).pool_epoch == old(self).pool_epoch,
            final(self).state == RecordState::Open,
            final(self).commands@ == old(self).commands@.push(Command::SetViewport { area }),
    {
        self.commands.push(Command::SetViewport { area });
    }

    /// Record a scissor change.
    pub fn set_scissor(&mut self, area: Rect)
        requires
            old(self).state == RecordState::Open,
        ensures
            final(self).pool_epoch == old(self).pool_epoch,
            final(self).state == RecordState::Open,
            final(self).commands@ == old(self).commands@.push(Command::SetScissor { area }),
    {
        self.commands.push(Command::SetScissor { area });
    }

    /// Record a push-constant update.
    pub fn push_constants(&mut self, value: u32)
        requires
            old(self).state == RecordState::Open,
        ensures
            final(self).pool_epoch == old(self).pool_epoch,
            final(self).state == RecordState::Open,
            final(self).commands@ == old(self).commands@.push(Command::PushConstants { value }),
    {
        self.commands.push(Command::PushConstants { value });
    }

    /// Record binding the graphics pipeline.
    pub fn bind_pipeline(&mut self)
        requires
            old(self).state == RecordState::Open,
        ensures
            final(self).pool_epoch == old(self).pool_epoch,
            final(self).state == RecordState::Open,
            final(self).commands@ == old(self).commands@.push(Command::BindPipeline),
    {
        self.commands.push(Command::BindPipeline);
    }

    /// Record binding the descriptor set.
    pub fn bind_descriptor_set(&mut self)
        requires
            old(self).state == RecordState::Open,
        ensures
            final(self).pool_epoch == old(self).pool_epoch,
            final(self).state == RecordState::Open,
            final(self).commands@ == old(self).commands@.push(Command::BindDescriptorSet),
    {
        self.commands.push(Command::BindDescriptorSet);
    }

    /// Record binding the vertex buffer.
    pub fn bind_vertex_buffer(&mut self)
        requires
            old(self).state == RecordState::Open,
        ensures
            final(self).pool_epoch == old(self).pool_epoch,
            final(self).state == RecordState::Open,
            final(self).commands@ == old(self).commands@.push(Command::BindVertexBuffer),
    {
        self.commands.push(Command::BindVertexBuffer);
    }

    /// Open the render pass against the framebuffer picked by `frame_index`.
    pub fn begin_render_pass(&mut self, frame_index: usize, area: Rect, clear: ClearColor)
        requires
            old(self).state == RecordState::Open,
        ensures
            final(self).pool_epoch == old(self).pool_epoch,
            final(self).state == RecordState::InRenderPass,
            final(self).commands@ == old(self).commands@.push(
                Command::BeginRenderPass { frame_index, area, clear },
            ),
    {
        self.commands.push(Command::BeginRenderPass { frame_index, area, clear });
        self.state = RecordState::InRenderPass;
    }

    /// Record a draw call; only legal inside a render pass.
    pub fn draw(&mut self, first_vertex: u32, vertex_count: u32, first_instance: u32, instance_count: u32)
        requires
            old(self).state == RecordState::InRenderPass,
        ensures
            final(self).pool_epoch == old(self).pool_epoch,
            final(self).state == RecordState::InRenderPass,
            final(self).commands@ == old(self).commands@.push(
                Command::Draw { first_vertex, vertex_count, first_instance, instance_count },
            ),
    {
        self.commands.push(Command::Draw { first_vertex, vertex_count, first_instance, instance_count });
    }

    /// Close the render pass.
    pub fn end_render_pass(&mut self)
        requires
            old(self).state == RecordState::InRenderPass,
        ensures
            final(self).pool_epoch == old(self).pool_epoch,
            final(self).state == RecordState::Open,
            final(self).commands@ == old(self).commands@.push(Command::EndRenderPass),
    {
        self.commands.push(Command::EndRenderPass);
        self.state = RecordState::Open;
    }

    /// Finish recording: the buffer becomes immutable and submittable.
    pub fn finish(&mut self)
        requires
            old(self).state == RecordState::Open,
        ensures
            final(self).pool_epoch == old(self).pool_epoch,
            final(self).state == RecordState::Finished,
            final(self).commands@ == old(self).commands@,
    {
        self.state = RecordState::Finished;
    }
}

} // verus!
