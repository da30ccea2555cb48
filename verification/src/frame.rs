//! Preparing a task for its first run.
//!
//! How a first frame looks is the architecture's business. The scheduler
//! core asks the architecture to write one and keeps for itself the decision
//! whether the stack pointer that comes back may be saved in the task.

use crate::stack::Stack;
use crate::task::{Task, TaskStack};
use vstd::prelude::*;

verus! {

/// What an architecture provides to start tasks.
pub trait TaskFrame {
    /// Create the initial stack frame for a new task: writes onto `stack`
    /// what a context switch needs to enter the function at address `func`
    /// as if it had just been called, and returns the stack pointer that
    /// the switch has to restore.
    fn create_stack_frame(&mut self, stack: &Stack, func: usize) -> (sp: usize);
}

impl Task {
    /// Whether `sp` can become the first saved stack pointer of the task:
    /// the task owns its stack, has no context saved yet, and `sp` lies on
    /// that stack.
    pub open spec fn frame_fits(&self, sp: usize) -> bool {
        &&& self.last_stack_pointer == 0
        &&& self.stack matches TaskStack::Owned(stack)
        &&& stack.holds(sp as int)
    }

    /// Saves `sp` as the stack pointer the task is first resumed from, where
    /// it fits; the task is left as it was where it does not. A saved stack
    /// pointer is never null, so a task takes a first frame once.
    pub fn install_frame(&mut self, sp: usize) -> (installed: bool)
        ensures
            installed == old(self).frame_fits(sp),
            installed ==> sp != 0 && *final(self) == (Task {
                last_stack_pointer: sp,
                ..*old(self)
            }),
            !installed ==> *final(self) == *old(self),
            old(self).wf() ==> final(self).wf(),
    {
        let fits = match &self.stack {
            TaskStack::Owned(stack) => {
                proof {
                    use_type_invariant(stack);
                }
                self.last_stack_pointer == 0 && stack.bottom() <= sp && sp <= stack.top()
            },
            TaskStack::Boot => false,
        };
        if fits {
            self.last_stack_pointer = sp;
        }
        fits
    }

    /// Whether the task can take a first frame: it owns its stack and has
    /// no context saved yet.
    pub open spec fn awaits_frame(&self) -> bool {
        &&& self.last_stack_pointer == 0
        &&& self.stack is Owned
    }

    /// Prepares the task to be entered at the function at address `func`:
    /// calls `arch` once, with the task's own stack and `func`, and saves
    /// the stack pointer it answers with where that lies on the stack; the
    /// answer meets whatever the architecture at hand ensures of the call.
    /// A task on the boot stack, or one with a saved context, is refused
    /// without a word to `arch`. A refused task stays as it was.
    pub fn create_stack_frame<A: TaskFrame>(&mut self, arch: &mut A, func: usize) -> (installed:
        bool)
        ensures
            !old(self).awaits_frame() ==> !installed && *final(arch) == *old(arch),
            old(self).awaits_frame() ==> exists|call: &mut A, sp: usize|
                {
                    &&& *call == *old(arch)
                    &&& *final(call) == *final(arch)
                    &&& #[trigger] call_ensures(
                        A::create_stack_frame,
                        (call, &old(self).own_stack(), func),
                        sp,
                    )
                    &&& installed == old(self).frame_fits(sp)
                    &&& installed ==> final(self).last_stack_pointer == sp
                },
            installed ==> old(self).frame_fits(final(self).last_stack_pointer),
            installed ==> final(self).last_stack_pointer != 0,
            installed ==> *final(self) == (Task {
                last_stack_pointer: final(self).last_stack_pointer,
                ..*old(self)
            }),
            !installed ==> *final(self) == *old(self),
            old(self).wf() ==> final(self).wf(),
    {
        if self.last_stack_pointer != 0 {
            return false;
        }
        let sp = match &self.stack {
            TaskStack::Owned(stack) => {
                let sp = arch.create_stack_frame(stack, func);
                proof {
                    assert(*stack == old(self).own_stack());
                    assert(exists|call: &mut A|
                        *call == *old(arch) && *final(call) == *arch && #[trigger] call_ensures(
                            A::create_stack_frame,
                            (call, stack, func),
                            sp,
                        ));
                }
                sp
            },
            TaskStack::Boot => {
                return false;
            },
        };
        self.install_frame(sp)
    }

    /// The stack of a task that owns one.
    pub open spec fn own_stack(&self) -> Stack
        recommends
            self.stack is Owned,
    {
        self.stack->Owned_0
    }

    /// A task takes a first frame at most once: after a stack pointer has
    /// been installed, no further one fits.
    pub proof fn lemma_frame_installed_once(self, first: usize, second: usize)
        requires
            self.frame_fits(first),
            self.stack matches TaskStack::Owned(stack) ==> stack.is_valid(),
        ensures
            !(Task { last_stack_pointer: first, ..self }).frame_fits(second),
    {
    }
}

} // verus!
