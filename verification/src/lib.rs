//! The core of a small kernel's scheduler: what a task is, where its stack
//! lives, and the queue that tasks wait in.
//!
//! - [`id`]: the identifier and the priority of a task.
//! - [`status`]: the statuses of a task and the moves between them.
//! - [`stack`]: a stack region with its top and bottom address.
//! - [`task`]: the task control block, from its construction to the return
//!   of its stack.
//! - [`frame`]: the first frame of a task, written by the architecture.
//! - [`queue`]: the first-in, first-out queue of waiting tasks.
//! - [`consts`]: the configured sizes and counts.
//! - [`text`]: decimal text for diagnostic messages.
//!
//! Memory is not touched here. The kernel around this core allocates and
//! frees the stack regions, owns the boot stack, and switches contexts; the
//! core decides and keeps the books.

pub mod consts;
pub mod frame;
pub mod id;
pub mod queue;
pub mod stack;
pub mod status;
pub mod task;
pub mod text;
