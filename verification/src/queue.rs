//! The admission queue: a bounded first-in, first-out buffer of pending
//! requests. Many callers submit, one worker takes.

use std::collections::VecDeque;
use vstd::prelude::*;

verus! {

/// Why a submission was turned away.
#[derive(Clone, Copy, Debug, PartialEq, Eq, Structural)]
pub enum AdmissionError {
    /// The queue holds as many tasks as it may: try again later.
    QueueFull,
    /// The queue was closed: it takes no further submissions.
    Closed,
}

/// A task that was turned away, handed back to its caller.
pub struct Rejected<T> {
    pub task: T,
    pub reason: AdmissionError,
}

/// What the worker finds when it looks for its next task.
pub enum Dequeued<T> {
    /// The oldest pending task.
    Task(T),
    /// Nothing is pending: wait for a submission.
    Empty,
    /// Nothing is pending and nothing will come: the queue was closed.
    Drained,
}

/// One operation on a queue.
pub enum QueueOp<T> {
    Submit(T),
    Take,
    Close,
}

/// The mathematical state of an admission queue: the pending tasks, oldest
/// first, the bound on their number, and whether the queue was closed.
pub struct QueueModel<T> {
    pub items: Seq<T>,
    pub capacity: nat,
    pub closed: bool,
}

impl<T> QueueModel<T> {
    pub open spec fn empty(capacity: nat) -> QueueModel<T> {
        QueueModel { items: Seq::empty(), capacity, closed: false }
    }

    pub open spec fn wf(self) -> bool {
        self.items.len() <= self.capacity
    }

    /// Why a submission would be turned away now, if it would.
    pub open spec fn refusal(self) -> Option<AdmissionError> {
        if self.closed {
            Some(AdmissionError::Closed)
        } else if self.items.len() >= self.capacity {
            Some(AdmissionError::QueueFull)
        } else {
            None
        }
    }

    pub open spec fn admits(self) -> bool {
        self.refusal() is None
    }

    /// The queue after a submission: the task goes to the back if the queue
    /// admits it, and nothing changes if not.
    pub open spec fn submit(self, task: T) -> QueueModel<T> {
        if self.admits() {
            QueueModel { items: self.items.push(task), ..self }
        } else {
            self
        }
    }

    /// The oldest pending task.
    pub open spec fn front(self) -> Option<T> {
        if self.items.len() > 0 {
            Some(self.items[0])
        } else {
            None
        }
    }

    /// The queue after the worker took the oldest pending task.
    pub open spec fn take(self) -> QueueModel<T> {
        if self.items.len() > 0 {
            QueueModel { items: self.items.subrange(1, self.items.len() as int), ..self }
        } else {
            self
        }
    }

    pub open spec fn close(self) -> QueueModel<T> {
        QueueModel { closed: true, ..self }
    }

    /// Closed, and every task that was admitted has been taken.
    pub open spec fn drained(self) -> bool {
        self.closed && self.items.len() == 0
    }

    pub open spec fn apply(self, op: QueueOp<T>) -> QueueModel<T> {
        match op {
            QueueOp::Submit(task) => self.submit(task),
            QueueOp::Take => self.take(),
            QueueOp::Close => self.close(),
        }
    }

    /// The queue after a sequence of operations.
    pub open spec fn run(self, ops: Seq<QueueOp<T>>) -> QueueModel<T>
        decreases ops.len(),
    {
        if ops.len() == 0 {
            self
        } else {
            self.run(ops.drop_last()).apply(ops.last())
        }
    }

    /// The tasks admitted up to the end of a run, in the order in which they
    /// were submitted, those pending at its start first.
    pub open spec fn admitted(self, ops: Seq<QueueOp<T>>) -> Seq<T>
        decreases ops.len(),
    {
        if ops.len() == 0 {
            self.items
        } else {
            let before = self.run(ops.drop_last());
            match ops.last() {
                QueueOp::Submit(task) if before.admits() => self.admitted(ops.drop_last()).push(
                    task,
                ),
                _ => self.admitted(ops.drop_last()),
            }
        }
    }

    /// The tasks handed to the worker during a run, in the order in which it
    /// took them.
    pub open spec fn served(self, ops: Seq<QueueOp<T>>) -> Seq<T>
        decreases ops.len(),
    {
        if ops.len() == 0 {
            Seq::empty()
        } else {
            let before = self.run(ops.drop_last());
            match ops.last() {
                QueueOp::Take if before.items.len() > 0 => self.served(ops.drop_last()).push(
                    before.items[0],
                ),
                _ => self.served(ops.drop_last()),
            }
        }
    }

    /// The queue after submitting the given tasks one after the other.
    pub open spec fn submit_all(self, tasks: Seq<T>) -> QueueModel<T>
        decreases tasks.len(),
    {
        if tasks.len() == 0 {
            self
        } else {
            self.submit_all(tasks.drop_last()).submit(tasks.last())
        }
    }

    /// The queue after the worker took `n` tasks.
    pub open spec fn take_n(self, n: nat) -> QueueModel<T>
        decreases n,
    {
        if n == 0 {
            self
        } else {
            self.take_n((n - 1) as nat).take()
        }
    }
}

/// A bounded first-in, first-out queue of pending tasks.
pub struct AdmissionQueue<T> {
    items: VecDeque<T>,
    capacity: usize,
    closed: bool,
}

impl<T> View for AdmissionQueue<T> {
    type V = QueueModel<T>;

    closed spec fn view(&self) -> QueueModel<T> {
        QueueModel { items: self.items@, capacity: self.capacity as nat, closed: self.closed }
    }
}

impl<T> AdmissionQueue<T> {
    /// An open, empty queue that holds at most `capacity` tasks.
    pub fn new(capacity: usize) -> (queue: AdmissionQueue<T>)
        ensures
            queue@ == QueueModel::<T>::empty(capacity as nat),
            queue@.wf(),
    {
        AdmissionQueue { items: VecDeque::new(), capacity, closed: false }
    }

    /// Tries to enqueue a task, without waiting. The task goes to the back of
    /// the queue, or comes back with the reason why it was turned away.
    pub fn submit(&mut self, task: T) -> (result: Result<(), Rejected<T>>)
        requires
            old(self)@.wf(),
        ensures
            final(self)@ == old(self)@.submit(task),
            final(self)@.wf(),
            match old(self)@.refusal() {
                None => result is Ok,
                Some(reason) => result matches Err(rejected) && rejected.task == task
                    && rejected.reason == reason,
            },
    {
        if self.closed {
            return Err(Rejected { task, reason: AdmissionError::Closed });
        }
        if self.items.len() >= self.capacity {
            return Err(Rejected { task, reason: AdmissionError::QueueFull });
        }
        self.items.push_back(task);
        Ok(())
    }

    /// Takes the oldest pending task, if there is one.
    pub fn take(&mut self) -> (task: Option<T>)
        requires
            old(self)@.wf(),
        ensures
            task == old(self)@.front(),
            final(self)@ == old(self)@.take(),
            final(self)@.wf(),
    {
        self.items.pop_front()
    }

    /// Looks for the worker's next task: the oldest pending one, or the news
    /// that the queue is empty for now, or for good.
    pub fn next(&mut self) -> (found: Dequeued<T>)
        requires
            old(self)@.wf(),
        ensures
            final(self)@ == old(self)@.take(),
            final(self)@.wf(),
            match old(self)@.front() {
                Some(task) => found == Dequeued::Task(task),
                None => if old(self)@.closed {
                    found is Drained
                } else {
                    found is Empty
                },
            },
    {
        match self.items.pop_front() {
            Some(task) => Dequeued::Task(task),
            None => if self.closed {
                Dequeued::Drained
            } else {
                Dequeued::Empty
            },
        }
    }

    /// Closes the queue: what is pending stays to be taken, and every later
    /// submission is turned away.
    pub fn close(&mut self)
        ensures
            final(self)@ == old(self)@.close(),
    {
        self.closed = true;
    }

    /// The number of pending tasks.
    pub fn len(&self) -> (n: usize)
        ensures
            n == self@.items.len(),
    {
        self.items.len()
    }

    pub fn capacity(&self) -> (n: usize)
        ensures
            n == self@.capacity,
    {
        self.capacity
    }

    pub fn is_empty(&self) -> (b: bool)
        ensures
            b == (self@.items.len() == 0),
    {
        self.items.len() == 0
    }

    pub fn is_full(&self) -> (b: bool)
        ensures
            b == (self@.items.len() >= self@.capacity),
    {
        self.items.len() >= self.capacity
    }

    pub fn is_closed(&self) -> (b: bool)
        ensures
            b == self@.closed,
    {
        self.closed
    }

    pub fn is_drained(&self) -> (b: bool)
        ensures
            b == self@.drained(),
    {
        self.closed && self.items.len() == 0
    }
}

/// No operation takes a queue over its bound.
pub proof fn lemma_run_wf<T>(q: QueueModel<T>, ops: Seq<QueueOp<T>>)
    requires
        q.wf(),
    ensures
        q.run(ops).wf(),
        q.run(ops).capacity == q.capacity,
    decreases ops.len(),
{
    if ops.len() > 0 {
        lemma_run_wf(q, ops.drop_last());
    }
}

/// First in, first out, nothing lost and nothing twice: however submissions,
/// takes and a close are interleaved, the tasks admitted so far, in the order
/// of their submission, are the tasks served so far, in the order in which the
/// worker took them, followed by the tasks still pending.
pub proof fn lemma_served_in_submission_order<T>(q: QueueModel<T>, ops: Seq<QueueOp<T>>)
    ensures
        q.admitted(ops) == q.served(ops) + q.run(ops).items,
    decreases ops.len(),
{
    if ops.len() == 0 {
        assert(q.items =~= Seq::<T>::empty() + q.items);
    } else {
        lemma_served_in_submission_order(q, ops.drop_last());
        let before = q.run(ops.drop_last());
        let served = q.served(ops.drop_last());
        match ops.last() {
            QueueOp::Submit(task) => {
                if before.admits() {
                    assert((served + before.items).push(task) =~= served + before.items.push(
                        task,
                    ));
                }
            },
            QueueOp::Take => {
                if before.items.len() > 0 {
                    assert(served + before.items =~= served.push(before.items[0])
                        + before.items.subrange(1, before.items.len() as int));
                }
            },
            QueueOp::Close => {},
        }
    }
}

/// An open queue with room for all of them admits a run of submissions whole
/// and in order.
pub proof fn lemma_submit_all<T>(q: QueueModel<T>, tasks: Seq<T>)
    requires
        !q.closed,
        q.items.len() + tasks.len() <= q.capacity,
    ensures
        q.submit_all(tasks) == (QueueModel { items: q.items + tasks, ..q }),
    decreases tasks.len(),
{
    if tasks.len() == 0 {
        assert(q.items + tasks =~= q.items);
    } else {
        lemma_submit_all(q, tasks.drop_last());
        assert((q.items + tasks.drop_last()).push(tasks.last()) =~= q.items + tasks);
    }
}

/// Taking `n` of the pending tasks leaves the others, in their order.
pub proof fn lemma_take_n<T>(q: QueueModel<T>, n: nat)
    requires
        n <= q.items.len(),
    ensures
        q.take_n(n) == (QueueModel { items: q.items.skip(n as int), ..q }),
    decreases n,
{
    if n == 0 {
        assert(q.items.skip(0) =~= q.items);
    } else {
        lemma_take_n(q, (n - 1) as nat);
        let rest = q.items.skip(n - 1);
        assert(rest.subrange(1, rest.len() as int) =~= q.items.skip(n as int));
    }
}

/// Tasks submitted in some order to an empty queue are handed to the worker in
/// that order: after `k` takes the next task is the one submitted at place `k`.
pub proof fn lemma_tasks_begin_in_submission_order<T>(capacity: nat, tasks: Seq<T>, k: nat)
    requires
        tasks.len() <= capacity,
        k < tasks.len(),
    ensures
        QueueModel::<T>::empty(capacity).submit_all(tasks).take_n(k).front() == Some(
            tasks[k as int],
        ),
{
    let q = QueueModel::<T>::empty(capacity);
    lemma_submit_all(q, tasks);
    assert(q.items + tasks =~= tasks);
    lemma_take_n(q.submit_all(tasks), k);
}

/// A queue that is full turns away the next submission with `QueueFull` and
/// keeps what it holds; as soon as the worker has taken one task, a submission
/// succeeds again and goes to the back.
pub proof fn lemma_full_then_free<T>(q: QueueModel<T>, extra: T)
    requires
        q.wf(),
        !q.closed,
        q.capacity >= 1,
        q.items.len() == q.capacity,
    ensures
        q.refusal() == Some(AdmissionError::QueueFull),
        q.submit(extra) == q,
        q.take().refusal() is None,
        q.take().submit(extra).items == q.items.subrange(1, q.items.len() as int).push(extra),
{
}

/// Of one more submission than an empty queue may hold, all but the last are
/// admitted and the last is turned away with `QueueFull`.
pub proof fn lemma_one_too_many<T>(capacity: nat, tasks: Seq<T>)
    requires
        tasks.len() == capacity + 1,
    ensures
        ({
            let filled = QueueModel::<T>::empty(capacity).submit_all(tasks.drop_last());
            &&& filled.items == tasks.drop_last()
            &&& filled.refusal() == Some(AdmissionError::QueueFull)
            &&& QueueModel::<T>::empty(capacity).submit_all(tasks) == filled
        }),
{
    let q = QueueModel::<T>::empty(capacity);
    lemma_submit_all(q, tasks.drop_last());
    assert(q.items + tasks.drop_last() =~= tasks.drop_last());
}

/// A closed queue admits nothing more, and hands out what it held in order.
pub proof fn lemma_closed_refuses<T>(q: QueueModel<T>, task: T)
    ensures
        q.close().refusal() == Some(AdmissionError::Closed),
        q.close().submit(task) == q.close(),
        q.close().items == q.items,
{
}

} // verus!
