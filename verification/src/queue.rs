//! The dispatch queue: a bounded first-in, first-out queue between many
//! callers and the one worker loop.
//!
//! The bound is what gives callers backpressure. A caller that arrives at a
//! full queue is not turned away and is not let in: it is suspended, in
//! arrival order, and admitted when the worker frees a slot. Nothing is ever
//! dropped or overtaken.

use crate::error::RunnerError;
use std::collections::VecDeque;
use vstd::prelude::*;

verus! {

/// The queue as a mathematical value.
pub struct QueueModel<T> {
    /// How many items the queue holds at most. Never zero.
    pub capacity: nat,
    /// The items in the queue, oldest first.
    pub accepted: Seq<T>,
    /// The items of suspended callers, in arrival order.
    pub suspended: Seq<T>,
    /// Whether the worker loop has gone.
    pub closed: bool,
}

impl<T> QueueModel<T> {
    /// What holds of every queue: the bound is kept, callers are suspended
    /// only while the queue is full, and a closed queue holds nothing.
    pub open spec fn wf(self) -> bool {
        &&& self.capacity > 0
        &&& self.accepted.len() <= self.capacity
        &&& self.suspended.len() > 0 ==> self.accepted.len() == self.capacity
        &&& self.closed ==> self.accepted.len() == 0 && self.suspended.len() == 0
    }

    /// The open, empty queue with room for `capacity` items.
    pub open spec fn empty(capacity: nat) -> Self {
        QueueModel { capacity, accepted: Seq::empty(), suspended: Seq::empty(), closed: false }
    }

    /// Everything that waits for the worker, in the order in which it will be
    /// served.
    pub open spec fn pending(self) -> Seq<T> {
        self.accepted + self.suspended
    }

    /// Whether every slot is taken.
    pub open spec fn is_full(self) -> bool {
        self.accepted.len() >= self.capacity
    }

    /// The queue after a caller has offered `item`.
    pub open spec fn enqueue(self, item: T) -> Self {
        if self.closed {
            self
        } else if self.is_full() {
            QueueModel { suspended: self.suspended.push(item), ..self }
        } else {
            QueueModel { accepted: self.accepted.push(item), ..self }
        }
    }

    /// The queue after the worker has taken the oldest item. The slot that
    /// this frees goes to the caller that has been suspended longest.
    pub open spec fn dequeue(self) -> Self {
        if self.accepted.len() == 0 {
            self
        } else if self.suspended.len() == 0 {
            QueueModel { accepted: self.accepted.skip(1), ..self }
        } else {
            QueueModel {
                accepted: self.accepted.skip(1).push(self.suspended[0]),
                suspended: self.suspended.skip(1),
                ..self
            }
        }
    }

    /// The queue after the worker loop has gone.
    pub open spec fn close(self) -> Self {
        QueueModel { accepted: Seq::empty(), suspended: Seq::empty(), closed: true, ..self }
    }
}

/// One thing that happens to a queue: a caller offers an item, or the worker
/// takes one.
pub enum QueueOp<T> {
    /// A caller offers this item.
    Enqueue(T),
    /// The worker takes the oldest item, if there is one.
    Dequeue,
}

impl<T> QueueModel<T> {
    /// The queue after `op`.
    pub open spec fn step(self, op: QueueOp<T>) -> Self {
        match op {
            QueueOp::Enqueue(item) => self.enqueue(item),
            QueueOp::Dequeue => self.dequeue(),
        }
    }

    /// What `op` hands to the worker: the oldest item, if `op` takes one and
    /// there is one.
    pub open spec fn output(self, op: QueueOp<T>) -> Option<T> {
        match op {
            QueueOp::Enqueue(_) => None,
            QueueOp::Dequeue => if self.accepted.len() > 0 {
                Some(self.accepted[0])
            } else {
                None
            },
        }
    }

    /// The queue after all of `ops`, in order.
    pub open spec fn run(self, ops: Seq<QueueOp<T>>) -> Self
        decreases ops.len(),
    {
        if ops.len() == 0 {
            self
        } else {
            self.run(ops.drop_last()).step(ops.last())
        }
    }

    /// What the worker has been handed in the course of `ops`, in order.
    pub open spec fn served(self, ops: Seq<QueueOp<T>>) -> Seq<T>
        decreases ops.len(),
    {
        if ops.len() == 0 {
            Seq::empty()
        } else {
            let earlier = self.served(ops.drop_last());
            match self.run(ops.drop_last()).output(ops.last()) {
                Some(item) => earlier.push(item),
                None => earlier,
            }
        }
    }

    /// Keeping the model well formed, an offer on an open queue puts the item
    /// behind everything that waits already.
    pub proof fn lemma_enqueue_appends(self, item: T)
        requires
            self.wf(),
            !self.closed,
        ensures
            self.enqueue(item).wf(),
            !self.enqueue(item).closed,
            self.enqueue(item).capacity == self.capacity,
            self.enqueue(item).pending() == self.pending().push(item),
    {
    }

    /// Keeping the model well formed, the worker takes what has waited
    /// longest, and everything else keeps its place.
    pub proof fn lemma_dequeue_takes_oldest(self)
        requires
            self.wf(),
        ensures
            self.dequeue().wf(),
            self.dequeue().closed == self.closed,
            self.dequeue().capacity == self.capacity,
            self.pending().len() > 0 ==> self.output(QueueOp::Dequeue) == Some(self.pending()[0])
                && self.dequeue().pending() == self.pending().skip(1),
            self.pending().len() == 0 ==> self.output(QueueOp::Dequeue) is None && self.dequeue()
                == self,
    {
    }
}

/// The items that callers offer in the course of `ops`, in order.
pub open spec fn offered<T>(ops: Seq<QueueOp<T>>) -> Seq<T>
    decreases ops.len(),
{
    if ops.len() == 0 {
        Seq::empty()
    } else {
        match ops.last() {
            QueueOp::Enqueue(item) => offered(ops.drop_last()).push(item),
            QueueOp::Dequeue => offered(ops.drop_last()),
        }
    }
}

/// Backpressure loses nothing and reorders nothing.
///
/// Let callers and the worker use an open queue in any interleaving. Then
/// the queue never holds more than its capacity, and what the worker has
/// been handed, followed by what still waits (in the queue or suspended), is
/// exactly what waited at the start followed by what was offered since, in
/// that order.
pub proof fn lemma_backpressure_keeps_order<T>(queue: QueueModel<T>, ops: Seq<QueueOp<T>>)
    requires
        queue.wf(),
        !queue.closed,
    ensures
        queue.run(ops).wf(),
        !queue.run(ops).closed,
        queue.run(ops).capacity == queue.capacity,
        queue.run(ops).accepted.len() <= queue.capacity,
        queue.served(ops) + queue.run(ops).pending() == queue.pending() + offered(ops),
    decreases ops.len(),
{
    if ops.len() > 0 {
        let earlier = ops.drop_last();
        lemma_backpressure_keeps_order(queue, earlier);
        let before = queue.run(earlier);
        match ops.last() {
            QueueOp::Enqueue(item) => {
                before.lemma_enqueue_appends(item);
                assert((queue.pending() + offered(earlier)).push(item) =~= queue.pending()
                    + offered(earlier).push(item));
            },
            QueueOp::Dequeue => {
                before.lemma_dequeue_takes_oldest();
            },
        }
    }
}

/// How an offered item was taken.
#[derive(Debug, Clone, Copy, PartialEq, Eq, Structural)]
pub enum Admission {
    /// The item is in the queue.
    Accepted,
    /// The queue is full: the caller waits its turn for a slot.
    Suspended,
}

/// A bounded queue with suspended callers behind it.
pub struct DispatchQueue<T> {
    capacity: usize,
    accepted: VecDeque<T>,
    suspended: VecDeque<T>,
    closed: bool,
}

impl<T> View for DispatchQueue<T> {
    type V = QueueModel<T>;

    closed spec fn view(&self) -> QueueModel<T> {
        QueueModel {
            capacity: self.capacity as nat,
            accepted: self.accepted@,
            suspended: self.suspended@,
            closed: self.closed,
        }
    }
}

impl<T> DispatchQueue<T> {
    /// Holds of every queue at all times: its model is well formed.
    #[verifier::type_invariant]
    pub open spec fn inv(self) -> bool {
        self@.wf()
    }

    /// An open, empty queue with room for `capacity` items.
    ///
    /// A queue without any room could never accept an item, so `capacity`
    /// must be at least one.
    pub fn new(capacity: usize) -> (queue: Self)
        requires
            capacity > 0,
        ensures
            queue@.wf(),
            queue@ == QueueModel::<T>::empty(capacity as nat),
    {
        DispatchQueue {
            capacity,
            accepted: VecDeque::new(),
            suspended: VecDeque::new(),
            closed: false,
        }
    }

    /// Offers `item` to the queue.
    ///
    /// On an open queue the item is taken in either way: into the queue if a
    /// slot is free, else behind the callers already suspended. On a closed
    /// queue the call fails and the item is dropped.
    pub fn enqueue(&mut self, item: T) -> (taken: Result<Admission, RunnerError>)
        ensures
            final(self)@.wf(),
            final(self)@ == old(self)@.enqueue(item),
            match taken {
                Ok(Admission::Accepted) => !old(self)@.closed && !old(self)@.is_full(),
                Ok(Admission::Suspended) => !old(self)@.closed && old(self)@.is_full(),
                Err(error) => old(self)@.closed && error is WorkerUnavailable,
            },
    {
        proof {
            use_type_invariant(&*self);
        }
        if self.closed {
            Err(RunnerError::WorkerUnavailable)
        } else if self.accepted.len() >= self.capacity {
            let mut suspended: VecDeque<T> = VecDeque::new();
            std::mem::swap(&mut suspended, &mut self.suspended);
            suspended.push_back(item);
            self.suspended = suspended;
            Ok(Admission::Suspended)
        } else {
            let mut accepted: VecDeque<T> = VecDeque::new();
            std::mem::swap(&mut accepted, &mut self.accepted);
            accepted.push_back(item);
            self.accepted = accepted;
            Ok(Admission::Accepted)
        }
    }

    /// Takes the oldest item out of the queue, if there is one, and admits
    /// the longest-suspended caller into the slot that this frees.
    pub fn dequeue(&mut self) -> (item: Option<T>)
        ensures
            final(self)@.wf(),
            final(self)@ == old(self)@.dequeue(),
            item == if old(self)@.accepted.len() > 0 {
                Some(old(self)@.accepted[0])
            } else {
                None
            },
    {
        proof {
            use_type_invariant(&*self);
        }
        let mut suspended: VecDeque<T> = VecDeque::new();
        let mut accepted: VecDeque<T> = VecDeque::new();
        std::mem::swap(&mut suspended, &mut self.suspended);
        std::mem::swap(&mut accepted, &mut self.accepted);
        let item = accepted.pop_front();
        if item.is_some() {
            let next = suspended.pop_front();
            if let Some(admitted) = next {
                accepted.push_back(admitted);
            }
        }
        self.accepted = accepted;
        self.suspended = suspended;
        item
    }

    /// Closes the queue, as the worker loop does when it ends. Hands back
    /// what had not been served, in the order in which it would have been:
    /// those calls can only fail now.
    pub fn close(&mut self) -> (unserved: Vec<T>)
        ensures
            final(self)@.wf(),
            final(self)@ == old(self)@.close(),
            unserved@ == old(self)@.pending(),
    {
        proof {
            use_type_invariant(&*self);
        }
        let mut suspended: VecDeque<T> = VecDeque::new();
        let mut accepted: VecDeque<T> = VecDeque::new();
        std::mem::swap(&mut suspended, &mut self.suspended);
        std::mem::swap(&mut accepted, &mut self.accepted);
        self.closed = true;
        let mut unserved: Vec<T> = Vec::new();
        loop
            invariant
                unserved@ + accepted@ + suspended@ == old(self)@.pending(),
            ensures
                unserved@ == old(self)@.pending(),
            decreases accepted@.len() + suspended@.len(),
        {
            let next = if accepted.len() > 0 {
                accepted.pop_front()
            } else {
                suspended.pop_front()
            };
            match next {
                Some(item) => {
                    unserved.push(item);
                },
                None => {
                    break ;
                },
            }
        }
        unserved
    }

    /// How many items the queue holds at most.
    pub fn capacity(&self) -> (capacity: usize)
        ensures
            capacity == self@.capacity,
    {
        self.capacity
    }

    /// How many items are in the queue.
    pub fn len(&self) -> (len: usize)
        ensures
            len == self@.accepted.len(),
    {
        self.accepted.len()
    }

    /// How many callers are suspended.
    pub fn waiting(&self) -> (waiting: usize)
        ensures
            waiting == self@.suspended.len(),
    {
        self.suspended.len()
    }

    /// Whether every slot is taken, so that the next caller is suspended.
    pub fn is_full(&self) -> (full: bool)
        ensures
            full == self@.is_full(),
    {
        self.accepted.len() >= self.capacity
    }

    /// Whether the worker loop has gone.
    pub fn is_closed(&self) -> (closed: bool)
        ensures
            closed == self@.closed,
    {
        self.closed
    }
}

} // verus!
