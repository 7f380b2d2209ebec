//! Fixed-capacity single-producer/single-consumer FIFO channel.
//!
//! The channel is a circular buffer with a consumer cursor (`head`) and a
//! length; the producer cursor is `head + len`, wrapped around the buffer.
//! `try_push` and `try_pop` never block: a push on a full channel hands the
//! value back, a pop on an empty channel returns `None`.  Values come out
//! in exactly the order they were accepted.

use vstd::prelude::*;

verus! {

/// What a successful push does to the queue contents: append the value if
/// there is room, otherwise leave the queue unchanged.
pub open spec fn spec_push<T>(q: Seq<T>, cap: nat, v: T) -> Seq<T> {
    if q.len() < cap {
        q.push(v)
    } else {
        q
    }
}

/// A push is accepted exactly when the queue holds fewer values than its
/// capacity.
pub open spec fn push_accepted<T>(q: Seq<T>, cap: nat) -> bool {
    q.len() < cap
}

/// What a pop does to the queue contents: drop the oldest value, if any.
pub open spec fn spec_pop<T>(q: Seq<T>) -> Seq<T> {
    if q.len() > 0 {
        q.drop_first()
    } else {
        q
    }
}

/// What a pop returns: the oldest value, if any.
pub open spec fn spec_pop_value<T>(q: Seq<T>) -> Option<T> {
    if q.len() > 0 {
        Some(q.first())
    } else {
        None
    }
}

/// A bounded FIFO queue meant to connect exactly one producing stage with
/// exactly one consuming stage.  Its abstract value (the view) is the
/// sequence of values accepted but not yet popped, oldest first.
pub struct Channel<T> {
    buf: Vec<Option<T>>,
    head: usize,
    len: usize,
}

impl<T> View for Channel<T> {
    type V = Seq<T>;

    closed spec fn view(&self) -> Seq<T> {
        Seq::new(self.len as nat, |i: int| self.buf@[self.slot(i)].unwrap())
    }
}

impl<T> Channel<T> {
    /// Capacity fixed at construction; the number of slots in the buffer.
    pub closed spec fn cap(self) -> nat {
        self.buf@.len()
    }

    /// Physical index of the `i`-th oldest value: `head + i`, wrapped.
    closed spec fn slot(self, i: int) -> int {
        if self.head + i < self.buf@.len() {
            self.head + i
        } else {
            self.head + i - self.buf@.len()
        }
    }

    /// Structural invariant: the cursors stay inside the buffer and every
    /// occupied slot actually holds a value.
    pub closed spec fn wf(self) -> bool {
        &&& self.buf@.len() >= 1
        &&& (self.head as int) < self.buf@.len()
        &&& self.len <= self.buf@.len()
        &&& forall|i: int| 0 <= i < self.len ==> (#[trigger] self.buf@[self.slot(i)]) is Some
    }

    /// Occupied slots have pairwise distinct physical indices.
    proof fn lemma_slot_injective(self, i: int, j: int)
        requires
            self.wf(),
            0 <= i < self.buf@.len(),
            0 <= j < self.buf@.len(),
            i != j,
        ensures
            self.slot(i) != self.slot(j),
    {
    }

    /// The channel invariant, as seen from outside: the producer cursor
    /// never runs more than `cap` ahead of the consumer cursor, so at most
    /// `cap` values are ever in flight.
    pub proof fn lemma_occupancy_bounded(self)
        requires
            self.wf(),
        ensures
            self@.len() <= self.cap(),
    {
    }

    /// Create an empty channel with the given capacity.
    pub fn new(capacity: usize) -> (c: Channel<T>)
        requires
            capacity >= 1,
        ensures
            c.wf(),
            c.cap() == capacity,
            c@ == Seq::<T>::empty(),
    {
        let mut buf: Vec<Option<T>> = Vec::new();
        while buf.len() < capacity
            invariant
                buf@.len() <= capacity,
            decreases capacity - buf.len(),
        {
            buf.push(None);
        }
        let c = Channel { buf, head: 0, len: 0 };
        proof {
            assert(c@ =~= Seq::<T>::empty());
        }
        c
    }

    /// Number of values currently queued.
    pub fn len(&self) -> (n: usize)
        ensures
            n == self@.len(),
    {
        self.len
    }

    /// The fixed capacity.
    pub fn capacity(&self) -> (n: usize)
        requires
            self.wf(),
        ensures
            n == self.cap(),
    {
        self.buf.len()
    }

    /// Non-blocking push.  Accepts the value exactly when the channel is not
    /// full; on failure the value is handed back untouched.
    pub fn try_push(&mut self, value: T) -> (r: Result<(), T>)
        requires
            old(self).wf(),
        ensures
            final(self).wf(),
            final(self).cap() == old(self).cap(),
            final(self)@ == spec_push(old(self)@, old(self).cap(), value),
            r is Ok <==> push_accepted(old(self)@, old(self).cap()),
            r is Err ==> r->Err_0 == value,
    {
        let cap = self.buf.len();
        if self.len < cap {
            let idx = if self.head >= cap - self.len {
                self.head - (cap - self.len)
            } else {
                self.head + self.len
            };
            let ghost pre = *self;
            assert(idx == pre.slot(pre.len as int));
            self.buf[idx] = Some(value);
            self.len = self.len + 1;
            proof {
                assert forall|i: int| 0 <= i < self.len implies (#[trigger] self.buf@[self.slot(i)]) is Some by {
                    if i < pre.len {
                        pre.lemma_slot_injective(i, pre.len as int);
                    }
                }
                assert forall|i: int| 0 <= i < pre.len implies self.buf@[self.slot(i)]
                    == pre.buf@[pre.slot(i)] by {
                    pre.lemma_slot_injective(i, pre.len as int);
                }
                assert(self@ =~= pre@.push(value));
            }
            Ok(())
        } else {
            Err(value)
        }
    }

    /// Non-blocking pop.  Returns the oldest queued value, or `None` when
    /// the channel is empty; the popped slot immediately becomes free for
    /// the producer again.
    pub fn try_pop(&mut self) -> (r: Option<T>)
        requires
            old(self).wf(),
        ensures
            final(self).wf(),
            final(self).cap() == old(self).cap(),
            final(self)@ == spec_pop(old(self)@),
            r == spec_pop_value(old(self)@),
    {
        if self.len == 0 {
            None
        } else {
            let ghost pre = *self;
            let mut taken: Option<T> = None;
            let head = self.head;
            core::mem::swap(&mut self.buf[head], &mut taken);
            let cap = self.buf.len();
            self.head = if self.head + 1 == cap {
                0
            } else {
                self.head + 1
            };
            self.len = self.len - 1;
            proof {
                assert(pre.slot(0) == pre.head);
                assert forall|i: int| 0 <= i < self.len implies self.buf@[self.slot(i)]
                    == pre.buf@[pre.slot(i + 1)] by {
                    assert(self.slot(i) == pre.slot(i + 1));
                    pre.lemma_slot_injective(i + 1, 0);
                }
                assert(self@ =~= pre@.drop_first());
            }
            match taken {
                Some(v) => Some(v),
                None => {
                    proof {
                        assert(false);
                    }
                    None
                },
            }
        }
    }
}

/// One operation applied to a channel, for stating laws about arbitrary
/// producer/consumer histories.
pub enum ChannelOp<T> {
    Push(T),
    Pop,
}

/// Run a history of operations against an initially empty channel of the
/// given capacity.  Returns the final queue contents, the values accepted
/// by pushes (in push order) and the values returned by pops (in pop
/// order).
pub open spec fn run_ops<T>(cap: nat, ops: Seq<ChannelOp<T>>) -> (Seq<T>, Seq<T>, Seq<T>)
    decreases ops.len(),
{
    if ops.len() == 0 {
        (Seq::empty(), Seq::empty(), Seq::empty())
    } else {
        let prior = run_ops(cap, ops.drop_last());
        let q = prior.0;
        let acc = prior.1;
        let popped = prior.2;
        match ops.last() {
            ChannelOp::Push(v) => {
                if push_accepted(q, cap) {
                    (spec_push(q, cap, v), acc.push(v), popped)
                } else {
                    (q, acc, popped)
                }
            },
            ChannelOp::Pop => {
                if q.len() > 0 {
                    (spec_pop(q), acc, popped.push(q.first()))
                } else {
                    (q, acc, popped)
                }
            },
        }
    }
}

/// FIFO law: for any history of pushes and pops on one channel, the popped
/// values are exactly a prefix of the accepted values, in push order, so in
/// particular no more values come out than went in.
pub proof fn lemma_fifo<T>(cap: nat, ops: Seq<ChannelOp<T>>)
    ensures
        run_ops(cap, ops).1 == run_ops(cap, ops).2 + run_ops(cap, ops).0,
        run_ops(cap, ops).2.len() <= run_ops(cap, ops).1.len(),
        run_ops(cap, ops).2 == run_ops(cap, ops).1.take(run_ops(cap, ops).2.len() as int),
    decreases ops.len(),
{
    if ops.len() == 0 {
        assert(run_ops(cap, ops).1 =~= run_ops(cap, ops).2 + run_ops(cap, ops).0);
        assert(run_ops(cap, ops).2 =~= run_ops(cap, ops).1.take(0));
    } else {
        lemma_fifo(cap, ops.drop_last());
        let prior = run_ops(cap, ops.drop_last());
        let cur = run_ops(cap, ops);
        match ops.last() {
            ChannelOp::Push(v) => {
                assert(cur.1 =~= cur.2 + cur.0);
            },
            ChannelOp::Pop => {
                assert(cur.1 =~= cur.2 + cur.0);
            },
        }
        assert(cur.2 =~= cur.1.take(cur.2.len() as int));
    }
}

/// Round-trip law: pushing one value into an empty channel with any
/// positive capacity is accepted, and an immediate pop returns exactly
/// that value, leaving the channel empty again.
pub proof fn lemma_round_trip<T>(cap: nat, v: T)
    requires
        cap >= 1,
    ensures
        push_accepted(Seq::<T>::empty(), cap),
        spec_pop_value(spec_push(Seq::<T>::empty(), cap, v)) == Some(v),
        spec_pop(spec_push(Seq::<T>::empty(), cap, v)) == Seq::<T>::empty(),
{
    let one = spec_push(Seq::<T>::empty(), cap, v);
    assert(one == Seq::<T>::empty().push(v));
    assert(one.first() == v);
    assert(spec_pop(one) =~= Seq::<T>::empty());
}

/// Boundary law: a channel at capacity rejects a push and keeps its
/// contents; one pop then makes the very next push succeed again.
pub proof fn lemma_capacity_boundary<T>(q: Seq<T>, cap: nat, v: T)
    requires
        cap >= 1,
        q.len() == cap,
    ensures
        !push_accepted(q, cap),
        spec_push(q, cap, v) == q,
        push_accepted(spec_pop(q), cap),
{
}

/// A history made only of pushes.
pub open spec fn all_pushes<T>(vs: Seq<T>) -> Seq<ChannelOp<T>> {
    Seq::new(vs.len(), |i: int| ChannelOp::Push(vs[i]))
}

/// Filling law: offering the channel more values than its capacity accepts
/// exactly the first `cap` of them, in order, when nothing is popped.
pub proof fn lemma_fills_to_capacity<T>(cap: nat, vs: Seq<T>)
    ensures
        run_ops(cap, all_pushes(vs)).1 == vs.take(if vs.len() <= cap {
            vs.len() as int
        } else {
            cap as int
        }),
        run_ops(cap, all_pushes(vs)).0 == run_ops(cap, all_pushes(vs)).1,
        run_ops(cap, all_pushes(vs)).2 == Seq::<T>::empty(),
    decreases vs.len(),
{
    if vs.len() == 0 {
        assert(all_pushes(vs).len() == 0);
        assert(run_ops(cap, all_pushes(vs)).1 =~= vs.take(0));
    } else {
        lemma_fills_to_capacity(cap, vs.drop_last());
        assert(all_pushes(vs).drop_last() =~= all_pushes(vs.drop_last()));
        assert(all_pushes(vs).last() == ChannelOp::Push(vs.last()));
        let bound: int = if vs.len() <= cap {
            vs.len() as int
        } else {
            cap as int
        };
        let prior_bound: int = if vs.len() - 1 <= cap {
            vs.len() - 1
        } else {
            cap as int
        };
        assert(vs.drop_last().take(prior_bound) =~= vs.take(prior_bound));
        assert(run_ops(cap, all_pushes(vs)).1 =~= vs.take(bound));
    }
}

} // verus!
