//! The task control block and the life of its stack.

use crate::id::{low_priority, TaskId, TaskPriority};
use crate::stack::Stack;
use crate::status::TaskStatus;
use vstd::prelude::*;

verus! {

/// Where a task's stack comes from, and so who gives it back.
#[derive(PartialEq, Eq, Debug)]
pub enum TaskStack {
    /// The boot stack: it exists once, outlives every task and is never
    /// given back to the allocator.
    Boot,
    /// A region that the allocator handed out for one task alone.
    Owned(Stack),
}

/// A task control block, which identifies either a process or a thread
#[derive(Debug)]
pub struct Task {
    /// The ID of this context
    pub id: TaskId,
    /// Task Priority
    pub prio: TaskPriority,
    /// Status of a task, e.g. if the task is ready or blocked
    pub status: TaskStatus,
    /// Last stack pointer before a context switch to another task
    pub last_stack_pointer: usize,
    // Stack of the task
    pub stack: TaskStack,
}

impl Task {
    /// Whether the task is in order: the boot stack carries no task but an
    /// idle one, and the stack pointer saved for a task with a stack of its
    /// own lies on that stack. The constructors build tasks in order and
    /// the methods keep them so; writes to the fields are not checked.
    pub open spec fn wf(&self) -> bool {
        match self.stack {
            TaskStack::Boot => self.status == TaskStatus::TaskIdle,
            TaskStack::Owned(stack) => {
                &&& stack.is_valid()
                &&& self.last_stack_pointer == 0 || stack.holds(self.last_stack_pointer as int)
            },
        }
    }

    /// The idle task as it is built.
    pub open spec fn spec_new_idle(id: TaskId) -> Task {
        Task {
            id: id,
            prio: low_priority(),
            status: TaskStatus::TaskIdle,
            last_stack_pointer: 0,
            stack: TaskStack::Boot,
        }
    }

    /// A task on the region `stack` as it is built.
    pub open spec fn spec_new(
        id: TaskId,
        status: TaskStatus,
        prio: TaskPriority,
        stack: Stack,
    ) -> Task {
        Task {
            id: id,
            prio: prio,
            status: status,
            last_stack_pointer: 0,
            stack: TaskStack::Owned(stack),
        }
    }

    /// What goes back to the allocator when the task ends: the task's own
    /// region, and nothing for the boot stack.
    pub open spec fn spec_release(self) -> Option<Stack> {
        match self.stack {
            TaskStack::Owned(stack) => Some(stack),
            TaskStack::Boot => None,
        }
    }

    /// The idle task: on the boot stack, at the least urgent priority, with
    /// no context saved yet. Building it takes nothing from the allocator.
    #[verifier::when_used_as_spec(spec_new_idle)]
    pub fn new_idle(id: TaskId) -> (task: Task)
        ensures
            task == Task::spec_new_idle(id),
            task.wf(),
    {
        Task {
            id: id,
            prio: low_priority(),
            status: TaskStatus::TaskIdle,
            last_stack_pointer: 0,
            stack: TaskStack::Boot,
        }
    }

    /// A task on the region `stack`, with no context saved yet. The caller
    /// has obtained the region from the allocator; the task owns it from
    /// here on.
    #[verifier::when_used_as_spec(spec_new)]
    pub fn new(id: TaskId, status: TaskStatus, prio: TaskPriority, stack: Stack) -> (task: Task)
        ensures
            task == Task::spec_new(id, status, prio, stack),
            task.wf(),
    {
        proof {
            use_type_invariant(&stack);
        }
        Task {
            id: id,
            prio: prio,
            status: status,
            last_stack_pointer: 0,
            stack: TaskStack::Owned(stack),
        }
    }

    /// Ends the task and hands out what the caller must give back to the
    /// allocator: the task's own region, or nothing where the task ran on
    /// the boot stack. A running task still uses its stack and cannot be
    /// ended.
    #[verifier::when_used_as_spec(spec_release)]
    pub fn release(self) -> (region: Option<Stack>)
        requires
            self.status != TaskStatus::TaskRunning,
        ensures
            region == self.spec_release(),
    {
        match self.stack {
            TaskStack::Owned(stack) => Some(stack),
            TaskStack::Boot => None,
        }
    }

    /// Moves the task to the status `next` where its status allows the
    /// move, and leaves the task as it was where it does not. Writing the
    /// `status` field stays possible and is not checked.
    pub fn transition(&mut self, next: TaskStatus) -> (moved: bool)
        ensures
            moved == old(self).status.allows(next),
            moved ==> *final(self) == (Task { status: next, ..*old(self) }),
            !moved ==> *final(self) == *old(self),
            old(self).wf() ==> final(self).wf(),
    {
        let moved = self.status.can_become(next);
        if moved {
            self.status = next;
        }
        moved
    }

    /// A task built on a region hands back that very region when it ends,
    /// and no other: `later` is the task at its end, after any changes to
    /// its identity, rank, status and saved stack pointer.
    pub proof fn lemma_owned_region_comes_back(
        id: TaskId,
        status: TaskStatus,
        prio: TaskPriority,
        stack: Stack,
        later: Task,
    )
        requires
            later.stack == Task::new(id, status, prio, stack).stack,
        ensures
            Task::new(id, status, prio, stack).release() == Some(stack),
            later.release() == Some(stack),
    {
    }

    /// The idle task hands back nothing when it ends, so the boot stack
    /// never reaches the allocator: `later` is the task at its end, after
    /// any changes to its identity, rank, status and saved stack pointer.
    pub proof fn lemma_boot_stack_stays(id: TaskId, later: Task)
        requires
            later.stack == Task::new_idle(id).stack,
        ensures
            Task::new_idle(id).release() is None,
            later.release() is None,
    {
    }
}

} // verus!
