use vstd::prelude::*;
use std::collections::VecDeque;

verus! {

/// A bounded first-in first-out queue of interleaved samples.
pub struct RingBuffer<S> {
    samples: VecDeque<S>,
    capacity: usize,
}

impl<S> View for RingBuffer<S> {
    type V = Seq<S>;

    /// The samples held, oldest first.
    closed spec fn view(&self) -> Seq<S> {
        self.samples@
    }
}

impl<S: Copy> RingBuffer<S> {
    /// The most samples the buffer may hold.
    pub closed spec fn spec_capacity(&self) -> nat {
        self.capacity as nat
    }

    /// Never more samples than the capacity.
    pub open spec fn wf(&self) -> bool {
        self@.len() <= self.spec_capacity()
    }

    /// An empty buffer of the given capacity.
    pub fn new(capacity: usize) -> (r: Self)
        ensures
            r@ == Seq::<S>::empty(),
            r.spec_capacity() == capacity,
            r.wf(),
    {
        RingBuffer { samples: VecDeque::with_capacity(capacity), capacity }
    }

    /// Number of samples held.
    pub fn len(&self) -> (r: usize)
        ensures
            r == self@.len(),
    {
        self.samples.len()
    }

    /// The capacity the buffer was made with.
    pub fn capacity(&self) -> (r: usize)
        ensures
            r == self.spec_capacity(),
    {
        self.capacity
    }

    /// Appends samples at the tail, in order. The caller must leave room.
    pub fn push_samples(&mut self, samples: &[S])
        requires
            old(self).wf(),
            old(self)@.len() + samples@.len() <= old(self).spec_capacity(),
        ensures
            final(self)@ == old(self)@ + samples@,
            final(self).spec_capacity() == old(self).spec_capacity(),
            final(self).wf(),
    {
        let mut i: usize = 0;
        while i < samples.len()
            invariant
                i <= samples@.len(),
                self.capacity == old(self).capacity,
                self.samples@ == old(self).samples@ + samples@.subrange(0, i as int),
            decreases samples@.len() - i,
        {
            self.samples.push_back(samples[i]);
            assert(samples@.subrange(0, i + 1) =~= samples@.subrange(0, i as int).push(
                samples@[i as int],
            ));
            assert(old(self).samples@ + samples@.subrange(0, i + 1) =~= (old(self).samples@
                + samples@.subrange(0, i as int)).push(samples@[i as int]));
            i = i + 1;
        }
        assert(samples@.subrange(0, samples@.len() as int) =~= samples@);
    }

    /// Removes `n` samples from the head and returns them, oldest first.
    /// The caller must not ask for more than are held.
    pub fn pop_samples(&mut self, n: usize) -> (r: Vec<S>)
        requires
            old(self).wf(),
            n <= old(self)@.len(),
        ensures
            r@ == old(self)@.take(n as int),
            final(self)@ == old(self)@.skip(n as int),
            final(self).spec_capacity() == old(self).spec_capacity(),
            final(self).wf(),
    {
        let mut out: Vec<S> = Vec::with_capacity(n);
        let mut i: usize = 0;
        while i < n
            invariant
                i <= n,
                n <= old(self)@.len(),
                self.capacity == old(self).capacity,
                out@ == old(self)@.take(i as int),
                self.samples@ == old(self)@.skip(i as int),
            decreases n - i,
        {
            match self.samples.pop_front() {
                Some(x) => {
                    out.push(x);
                },
                None => {},
            }
            assert(old(self)@.take(i + 1) =~= old(self)@.take(i as int).push(old(self)@[i as int]));
            assert(self.samples@ =~= old(self)@.skip(i + 1));
            i = i + 1;
        }
        out
    }
}

/// One operation on a buffer: appending samples, or taking some from the head.
pub enum RingOp<S> {
    Push(Seq<S>),
    Pop(nat),
}

/// The buffer after a run of operations from empty.
pub open spec fn buffer_after<S>(ops: Seq<RingOp<S>>) -> Seq<S>
    decreases ops.len(),
{
    if ops.len() == 0 {
        seq![]
    } else {
        let b = buffer_after(ops.drop_last());
        match ops.last() {
            RingOp::Push(xs) => b + xs,
            RingOp::Pop(n) => b.skip(n as int),
        }
    }
}

/// Everything taken from the head during a run of operations, in order.
pub open spec fn popped_by<S>(ops: Seq<RingOp<S>>) -> Seq<S>
    decreases ops.len(),
{
    if ops.len() == 0 {
        seq![]
    } else {
        let b = buffer_after(ops.drop_last());
        match ops.last() {
            RingOp::Push(_) => popped_by(ops.drop_last()),
            RingOp::Pop(n) => popped_by(ops.drop_last()) + b.take(n as int),
        }
    }
}

/// Everything appended during a run of operations, in order.
pub open spec fn pushed_by<S>(ops: Seq<RingOp<S>>) -> Seq<S>
    decreases ops.len(),
{
    if ops.len() == 0 {
        seq![]
    } else {
        match ops.last() {
            RingOp::Push(xs) => pushed_by(ops.drop_last()) + xs,
            RingOp::Pop(_) => pushed_by(ops.drop_last()),
        }
    }
}

/// Every operation meets the buffer's preconditions: no push beyond the
/// capacity, no pop of more than is held.
pub open spec fn respects_bounds<S>(ops: Seq<RingOp<S>>, capacity: nat) -> bool
    decreases ops.len(),
{
    if ops.len() == 0 {
        true
    } else {
        let b = buffer_after(ops.drop_last());
        respects_bounds(ops.drop_last(), capacity) && match ops.last() {
            RingOp::Push(xs) => b.len() + xs.len() <= capacity,
            RingOp::Pop(n) => n <= b.len(),
        }
    }
}

/// First in, first out: for any run of pushes and pops within bounds, what
/// was taken followed by what is still held is exactly what was pushed, in
/// the order pushed; and the buffer never holds more than its capacity.
pub proof fn lemma_fifo<S>(ops: Seq<RingOp<S>>, capacity: nat)
    requires
        respects_bounds(ops, capacity),
    ensures
        popped_by(ops) + buffer_after(ops) == pushed_by(ops),
        buffer_after(ops).len() <= capacity,
    decreases ops.len(),
{
    if ops.len() > 0 {
        let prev = ops.drop_last();
        lemma_fifo(prev, capacity);
        let b = buffer_after(prev);
        match ops.last() {
            RingOp::Push(xs) => {
                assert(popped_by(prev) + (b + xs) =~= (popped_by(prev) + b) + xs);
            },
            RingOp::Pop(n) => {
                assert((popped_by(prev) + b.take(n as int)) + b.skip(n as int) =~= popped_by(prev)
                    + b);
            },
        }
    }
}

/// The same operations with every pushed sample passed through `f`.
pub open spec fn map_ops<S>(ops: Seq<RingOp<S>>, f: spec_fn(S) -> S) -> Seq<RingOp<S>> {
    ops.map_values(
        |op: RingOp<S>|
            match op {
                RingOp::Push(xs) => RingOp::Push(xs.map_values(f)),
                RingOp::Pop(n) => RingOp::Pop(n),
            },
    )
}

/// Buffering does not look at sample values: applying a per-sample map
/// (such as a gain) before the samples go through the buffer gives the
/// same output, and the same held samples, as applying it afterwards, for
/// any run of pushes and pops within bounds.
pub proof fn lemma_map_commutes<S>(ops: Seq<RingOp<S>>, capacity: nat, f: spec_fn(S) -> S)
    requires
        respects_bounds(ops, capacity),
    ensures
        buffer_after(map_ops(ops, f)) == buffer_after(ops).map_values(f),
        popped_by(map_ops(ops, f)) == popped_by(ops).map_values(f),
    decreases ops.len(),
{
    if ops.len() > 0 {
        let prev = ops.drop_last();
        let mops = map_ops(ops, f);
        assert(mops.drop_last() =~= map_ops(prev, f));
        lemma_map_commutes(prev, capacity, f);
        let b = buffer_after(prev);
        match ops.last() {
            RingOp::Push(xs) => {
                assert(buffer_after(mops) =~= buffer_after(ops).map_values(f));
            },
            RingOp::Pop(n) => {
                assert(b.map_values(f).skip(n as int) =~= b.skip(n as int).map_values(f));
                assert(b.map_values(f).take(n as int) =~= b.take(n as int).map_values(f));
                assert(popped_by(mops) =~= popped_by(ops).map_values(f));
                assert(buffer_after(mops) =~= buffer_after(ops).map_values(f));
            },
        }
    }
}

} // verus!
