//! The queue of tasks that wait for the processor or for an event.

use crate::id::TaskId;
use std::collections::VecDeque;
use vstd::prelude::*;

verus! {

/// A queue of tasks in the order of their arrival. It holds the tasks'
/// identifiers, never the tasks: a task may wait in a queue and be known
/// elsewhere at the same time, and leaving a queue does not end it.
pub struct TaskQueue {
    queue: VecDeque<TaskId>,
}

impl View for TaskQueue {
    type V = Seq<TaskId>;

    /// The waiting tasks, the one that arrived first at index 0.
    closed spec fn view(&self) -> Seq<TaskId> {
        self.queue@
    }
}

/// Whether `at` is the index of the first entry of `task` in `queue`.
pub open spec fn is_first_entry(queue: Seq<TaskId>, task: TaskId, at: int) -> bool {
    &&& 0 <= at < queue.len()
    &&& queue[at] == task
    &&& forall|before: int| 0 <= before < at ==> queue[before] != task
}

impl TaskQueue {
    /// An empty queue.
    pub fn new() -> (queue: TaskQueue)
        ensures
            queue@ == Seq::<TaskId>::empty(),
    {
        TaskQueue { queue: VecDeque::new() }
    }

    /// Add a task to the queue
    pub fn push(&mut self, task: TaskId)
        ensures
            final(self)@ == old(self)@.push(task),
    {
        self.queue.push_back(task);
    }

    /// Pop the task from the queue
    pub fn pop(&mut self) -> (task: Option<TaskId>)
        ensures
            old(self)@.len() == 0 ==> task is None && final(self)@ == old(self)@,
            old(self)@.len() > 0 ==> task == Some(old(self)@.first()),
            old(self)@.len() > 0 ==> final(self)@ == old(self)@.drop_first(),
    {
        self.queue.pop_front()
    }

    /// Whether no task waits in the queue.
    pub fn is_empty(&self) -> (empty: bool)
        ensures
            empty == (self@.len() == 0),
    {
        self.queue.len() == 0
    }

    /// Remove a specific task from the priority queue: its first entry
    /// leaves, the tasks around it keep their order, and a queue that does
    /// not hold the task stays as it is.
    pub fn remove(&mut self, task: TaskId)
        ensures
            final(self)@ == old(self)@.remove_value(task),
            !old(self)@.contains(task) ==> final(self)@ == old(self)@,
            old(self)@.contains(task) ==> exists|at: int|
                #[trigger] is_first_entry(old(self)@, task, at) && final(self)@ == old(
                    self,
                )@.remove(at),
    {
        let mut i: usize = 0;
        while i < self.queue.len()
            invariant
                i <= self.queue@.len(),
                self.queue@ == old(self).queue@,
                forall|j: int| 0 <= j < i ==> self.queue@[j] != task,
            decreases self.queue@.len() - i,
        {
            if self.queue[i] == task {
                proof {
                    old(self)@.index_of_first_ensures(task);
                    assert(is_first_entry(old(self)@, task, i as int));
                }
                self.queue.remove(i);
                return ;
            }
            i += 1;
        }
        proof {
            old(self)@.index_of_first_ensures(task);
        }
    }
}

impl Default for TaskQueue {
    fn default() -> (queue: Self)
        ensures
            queue@ == Seq::<TaskId>::empty(),
    {
        TaskQueue::new()
    }
}

/// The queue `queue` after the tasks of `tasks` have been pushed one by one.
pub open spec fn after_pushes(queue: Seq<TaskId>, tasks: Seq<TaskId>) -> Seq<TaskId>
    decreases tasks.len(),
{
    if tasks.len() == 0 {
        queue
    } else {
        after_pushes(queue.push(tasks.first()), tasks.drop_first())
    }
}

/// What `n` pops in a row return on the queue `queue`, the first pop at
/// index 0.
pub open spec fn pops(queue: Seq<TaskId>, n: nat) -> Seq<Option<TaskId>>
    decreases n,
{
    if n == 0 {
        Seq::empty()
    } else if queue.len() == 0 {
        seq![None::<TaskId>] + pops(queue, (n - 1) as nat)
    } else {
        seq![Some(queue.first())] + pops(queue.drop_first(), (n - 1) as nat)
    }
}

/// The queue `queue` after `n` pops in a row.
pub open spec fn after_pops(queue: Seq<TaskId>, n: nat) -> Seq<TaskId>
    decreases n,
{
    if n == 0 || queue.len() == 0 {
        queue
    } else {
        after_pops(queue.drop_first(), (n - 1) as nat)
    }
}

/// Pushing tasks appends them in the order of the pushes.
pub proof fn lemma_pushes_append(queue: Seq<TaskId>, tasks: Seq<TaskId>)
    ensures
        after_pushes(queue, tasks) == queue + tasks,
    decreases tasks.len(),
{
    if tasks.len() > 0 {
        lemma_pushes_append(queue.push(tasks.first()), tasks.drop_first());
    }
}

/// Pops hand out the queue from its head: the pop at index `k` returns the
/// task at index `k`, or nothing once the queue has run empty, and what is
/// left is the queue without the tasks handed out.
pub proof fn lemma_pops_from_head(queue: Seq<TaskId>, n: nat)
    ensures
        pops(queue, n).len() == n,
        forall|k: int|
            0 <= k < n ==> #[trigger] pops(queue, n)[k] == if k < queue.len() {
                Some(queue[k])
            } else {
                None
            },
        n <= queue.len() ==> after_pops(queue, n) == queue.skip(n as int),
        n >= queue.len() ==> after_pops(queue, n) == Seq::<TaskId>::empty(),
    decreases n,
{
    if n > 0 && queue.len() == 0 {
        lemma_pops_from_head(queue, (n - 1) as nat);
    } else if n > 0 {
        lemma_pops_from_head(queue.drop_first(), (n - 1) as nat);
    }
}

/// First in, first out: tasks pushed onto an empty queue come back from as
/// many pops in the order in which they were pushed, and the queue is empty
/// again.
pub proof fn lemma_fifo(tasks: Seq<TaskId>)
    ensures
        pops(after_pushes(Seq::empty(), tasks), tasks.len()) == tasks.map_values(
            |task: TaskId| Some(task),
        ),
        after_pops(after_pushes(Seq::empty(), tasks), tasks.len()) == Seq::<TaskId>::empty(),
{
    let queue = after_pushes(Seq::empty(), tasks);
    lemma_pushes_append(Seq::empty(), tasks);
    lemma_pops_from_head(queue, tasks.len());
}

/// Removing a task that the queue does not hold changes nothing.
pub proof fn lemma_remove_absent(queue: Seq<TaskId>, task: TaskId)
    requires
        !queue.contains(task),
    ensures
        queue.remove_value(task) == queue,
{
    queue.index_of_first_ensures(task);
}

/// Removing a task takes out one entry of it and leaves every other task
/// where it stood relative to the others.
pub proof fn lemma_remove_keeps_others(queue: Seq<TaskId>, task: TaskId)
    ensures
        queue.remove_value(task).filter(|other: TaskId| other != task) == queue.filter(
            |other: TaskId| other != task,
        ),
        queue.contains(task) ==> queue.remove_value(task).len() == queue.len() - 1,
{
    queue.index_of_first_ensures(task);
    if queue.contains(task) {
        let i = queue.index_of_first(task).unwrap();
        let others = |other: TaskId| other != task;
        let head = queue.subrange(0, i);
        let tail = queue.subrange(i + 1, queue.len() as int);
        let hit = seq![queue[i]];
        assert(queue =~= head + hit + tail);
        assert(hit.filter(others) =~= Seq::<TaskId>::empty()) by {
            reveal_with_fuel(Seq::filter, 2);
        }
    }
}

/// Removing a task that the queue holds once leaves a queue without it, so
/// no pop returns the task.
pub proof fn lemma_remove_only_entry(queue: Seq<TaskId>, task: TaskId)
    requires
        forall|i: int, j: int|
            0 <= i < queue.len() && 0 <= j < queue.len() && queue[i] == task && queue[j] == task
                ==> i == j,
    ensures
        !queue.remove_value(task).contains(task),
{
    queue.index_of_first_ensures(task);
    if queue.contains(task) {
        let at = queue.index_of_first(task).unwrap();
        let rest = queue.remove(at);
        if rest.contains(task) {
            let k = choose|k: int| 0 <= k < rest.len() && rest[k] == task;
            assert(queue[k] == task || queue[k + 1] == task);
        }
    }
}

/// A task that is pushed and then removed is gone: where the queue did not
/// hold the task before, it is afterwards what it was before, so no pop
/// returns the task.
pub proof fn lemma_push_then_remove(queue: Seq<TaskId>, task: TaskId)
    requires
        !queue.contains(task),
    ensures
        queue.push(task).remove_value(task) == queue,
        !queue.push(task).remove_value(task).contains(task),
{
    let pushed = queue.push(task);
    pushed.index_of_first_ensures(task);
    assert(pushed[queue.len() as int] == task);
}

} // verus!
