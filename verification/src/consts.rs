//! Configuration of the scheduler core.

use vstd::prelude::*;

verus! {

/// Size of a task's stack region in bytes.
pub const STACK_SIZE: usize = 0x2000;

/// Alignment of every stack region in bytes.
pub const STACK_ALIGN: usize = 64;

/// Bytes kept free between the initial stack pointer and the high end of a
/// stack region.
pub const STACK_GUARD: usize = 16;

/// Number of priority levels; the least urgent level is `NO_PRIORITIES - 1`.
pub const NO_PRIORITIES: usize = 32;

} // verus!
