//! The shared task queue: an ordered FIFO of pending task payloads.
//!
//! `push`, `push_all` and `pop` keep insertion order, and `pop` on an empty
//! queue reports "no item" immediately instead of blocking. In the running
//! system one queue is shared by all workers of a crawl type under a mutex
//! owned by the binary; every access is therefore mutually exclusive, and
//! the sequential contracts below describe each access exactly.

use vstd::prelude::*;

verus! {

/// An ordered FIFO of pending task payloads, viewed as the sequence of
/// items still waiting, front first.
pub struct TaskQueue<T> {
    items: Vec<T>,
}

impl<T> View for TaskQueue<T> {
    type V = Seq<T>;

    closed spec fn view(&self) -> Seq<T> {
        self.items@
    }
}

impl<T> TaskQueue<T> {
    /// Creates an empty queue.
    pub fn new() -> (q: TaskQueue<T>)
        ensures
            q@ == Seq::<T>::empty(),
    {
        TaskQueue { items: Vec::new() }
    }

    /// The number of items waiting in the queue.
    pub fn size(&self) -> (n: usize)
        ensures
            n == self@.len(),
    {
        self.items.len()
    }

    /// Appends one item at the back of the queue.
    pub fn push(&mut self, v: T)
        ensures
            final(self)@ == old(self)@.push(v),
    {
        self.items.push(v);
    }

    /// Appends every item of `v` at the back of the queue, in order.
    pub fn push_all(&mut self, v: Vec<T>)
        ensures
            final(self)@ == old(self)@ + v@,
    {
        let mut incoming = v;
        self.items.append(&mut incoming);
    }

    /// What one pop does to the queue's contents, and what it returns.
    pub open spec fn spec_pop(q: Seq<T>) -> (Seq<T>, Option<T>) {
        if q.len() == 0 {
            (q, None)
        } else {
            (q.drop_first(), Some(q[0]))
        }
    }

    /// The results of `m` pops in a row, in the order the callers were
    /// served.
    pub open spec fn spec_pops(q: Seq<T>, m: nat) -> Seq<Option<T>>
        decreases m,
    {
        if m == 0 {
            Seq::empty()
        } else {
            let (rest, r) = TaskQueue::<T>::spec_pop(q);
            seq![r] + TaskQueue::<T>::spec_pops(rest, (m - 1) as nat)
        }
    }

    /// Pops are linearizable: since every pop holds the queue exclusively,
    /// `m` pops against a queue holding the items `q` are served in some
    /// order, and their results are exactly the items of `q`, front first,
    /// each handed out once, followed by "empty" answers — so a queue of
    /// `k <= m` items yields exactly `k` non-empty results and `m - k`
    /// empty ones, with no item returned twice.
    pub proof fn lemma_pops_linearizable(q: Seq<T>, m: nat)
        ensures
            TaskQueue::<T>::spec_pops(q, m) == Seq::new(
                m,
                |i: int|
                    if i < q.len() {
                        Some(q[i])
                    } else {
                        None
                    },
            ),
        decreases m,
    {
        let expected = Seq::new(
            m,
            |i: int|
                if i < q.len() {
                    Some(q[i])
                } else {
                    None
                },
        );
        if m == 0 {
            assert(TaskQueue::<T>::spec_pops(q, m) =~= expected);
        } else {
            let (rest, r) = TaskQueue::<T>::spec_pop(q);
            TaskQueue::<T>::lemma_pops_linearizable(rest, (m - 1) as nat);
            assert(TaskQueue::<T>::spec_pops(q, m) =~= expected);
        }
    }

    /// Removes and returns the front item, or reports the queue empty.
    pub fn pop(&mut self) -> (r: Option<T>)
        ensures
            (final(self)@, r) == TaskQueue::<T>::spec_pop(old(self)@),
            old(self)@.len() == 0 ==> r is None && final(self)@ == old(self)@,
            old(self)@.len() > 0 ==> r == Some(old(self)@[0]) && final(self)@ == old(self)@.drop_first(),
    {
        if self.items.len() == 0 {
            None
        } else {
            let v = self.items.remove(0);
            Some(v)
        }
    }
}

} // verus!
