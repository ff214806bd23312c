//! A verified model of a single-buffered frame renderer: the synchronization
//! protocol between a host render loop and a device that executes submitted
//! command buffers, signals a fence on completion, and presents frames from a
//! swapchain.

pub mod sync;
pub mod command;
pub mod events;
pub mod error;
pub mod setup;
pub mod renderer;
