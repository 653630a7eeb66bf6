//! The bounded resource pool: an ordered store of at most `CAP` resources
//! that a handler consumes in supply order and writes back in the same order.
//!
//! A harness fills a fresh pool before the handler runs.  The handler takes
//! resources one by one, in the order they were supplied, and may write each
//! one back after changing it.  Afterwards the harness reads the written-back
//! resources by position to check what the handler left behind.

use vstd::prelude::*;

verus! {

/// The largest number of resources one pool can hold.
pub const CAP: usize = 10;

/// What a pool holds, as mathematics: the stored resources and the two cursors.
pub struct PoolState<T> {
    /// The resources, in supply order; written-back positions hold the new value.
    pub items: Seq<T>,
    /// How many resources the handler has taken.
    pub next_read: nat,
    /// How many resources the handler has written back.
    pub next_write: nat,
}

/// One step of the pool protocol.
pub enum PoolOp<T> {
    /// The harness appends a resource.
    Supply(T),
    /// The handler takes the next resource.
    Take,
    /// The handler writes a resource back.
    Repack(T),
}

impl<T> PoolState<T> {
    /// The cursors are ordered and the capacity is respected.
    pub open spec fn wf(self) -> bool {
        self.next_write <= self.next_read <= self.items.len() <= CAP
    }

    /// The pool as `init` leaves it.
    pub open spec fn empty() -> Self {
        PoolState { items: Seq::empty(), next_read: 0, next_write: 0 }
    }

    /// There is room for one more resource.
    pub open spec fn can_supply(self) -> bool {
        self.items.len() < CAP
    }

    /// The pool after `x` was appended.
    pub open spec fn supply(self, x: T) -> Self {
        PoolState { items: self.items.push(x), ..self }
    }

    /// A supplied resource has not been taken yet.
    pub open spec fn can_take(self) -> bool {
        self.next_read < self.items.len()
    }

    /// The resource that the next take returns.
    pub open spec fn front(self) -> T {
        self.items[self.next_read as int]
    }

    /// The pool after one take.
    pub open spec fn take(self) -> Self {
        PoolState { next_read: self.next_read + 1, ..self }
    }

    /// A taken resource has not been written back yet.
    pub open spec fn can_repack(self) -> bool {
        self.next_write < self.next_read
    }

    /// The pool after `x` was written back.
    pub open spec fn repack(self, x: T) -> Self {
        PoolState {
            items: self.items.update(self.next_write as int, x),
            next_write: self.next_write + 1,
            ..self
        }
    }

    /// Whether `op` is legal in this state.
    pub open spec fn admits(self, op: PoolOp<T>) -> bool {
        match op {
            PoolOp::Supply(_) => self.can_supply(),
            PoolOp::Take => self.can_take(),
            PoolOp::Repack(_) => self.can_repack(),
        }
    }

    /// The state after `op`.
    pub open spec fn step(self, op: PoolOp<T>) -> Self {
        match op {
            PoolOp::Supply(x) => self.supply(x),
            PoolOp::Take => self.take(),
            PoolOp::Repack(x) => self.repack(x),
        }
    }

    /// Every operation of `ops` is legal at the moment it is made, starting here.
    pub open spec fn admits_all(self, ops: Seq<PoolOp<T>>) -> bool
        decreases ops.len(),
    {
        ops.len() == 0 || (self.admits_all(ops.drop_last()) && self.run(ops.drop_last()).admits(
            ops.last(),
        ))
    }

    /// The state after all of `ops`, in order.
    pub open spec fn run(self, ops: Seq<PoolOp<T>>) -> Self
        decreases ops.len(),
    {
        if ops.len() == 0 {
            self
        } else {
            self.run(ops.drop_last()).step(ops.last())
        }
    }

    /// The pool after all of `xs` were supplied, in order.
    pub open spec fn supply_all(self, xs: Seq<T>) -> Self {
        PoolState { items: self.items + xs, ..self }
    }

    /// The pool after `n` takes.
    pub open spec fn take_n(self, n: nat) -> Self {
        PoolState { next_read: self.next_read + n, ..self }
    }
}

/// The values that `ops` writes back, in the order they are written.
pub open spec fn repacked<T>(ops: Seq<PoolOp<T>>) -> Seq<T>
    decreases ops.len(),
{
    if ops.len() == 0 {
        Seq::empty()
    } else {
        match ops.last() {
            PoolOp::Repack(x) => repacked(ops.drop_last()).push(x),
            _ => repacked(ops.drop_last()),
        }
    }
}

/// The operations that supply each of `xs` in order.
pub open spec fn supplies<T>(xs: Seq<T>) -> Seq<PoolOp<T>> {
    Seq::new(xs.len(), |i: int| PoolOp::Supply(xs[i]))
}

/// `n` takes in a row.
pub open spec fn takes<T>(n: nat) -> Seq<PoolOp<T>> {
    Seq::new(n, |i: int| PoolOp::Take)
}

/// A bounded, ordered pool of resources of one type.
pub struct Pool<T> {
    items: Vec<T>,
    next_read: usize,
    next_write: usize,
}

impl<T> View for Pool<T> {
    type V = PoolState<T>;

    closed spec fn view(&self) -> PoolState<T> {
        PoolState {
            items: self.items@,
            next_read: self.next_read as nat,
            next_write: self.next_write as nat,
        }
    }
}

impl<T: Copy> Pool<T> {
    /// An empty pool with both cursors at the start.
    pub fn init() -> (pool: Self)
        ensures
            pool@ == PoolState::<T>::empty(),
            pool@.wf(),
    {
        Pool { items: Vec::new(), next_read: 0, next_write: 0 }
    }

    /// Whether one more resource fits.
    pub fn can_supply(&self) -> (b: bool)
        ensures
            b == self@.can_supply(),
    {
        self.items.len() < CAP
    }

    /// Appends `x` behind everything supplied so far.
    pub fn expect_unpack(&mut self, x: T)
        requires
            old(self)@.wf(),
            old(self)@.can_supply(),
        ensures
            final(self)@ == old(self)@.supply(x),
            final(self)@.wf(),
    {
        self.items.push(x);
    }

    /// Whether a supplied resource is left to take.
    pub fn can_take(&self) -> (b: bool)
        ensures
            b == self@.can_take(),
    {
        self.next_read < self.items.len()
    }

    /// Hands out the oldest resource that was not taken yet.
    pub fn get_next(&mut self) -> (x: T)
        requires
            old(self)@.wf(),
            old(self)@.can_take(),
        ensures
            x == old(self)@.front(),
            final(self)@ == old(self)@.take(),
            final(self)@.wf(),
    {
        let x = self.items[self.next_read];
        self.next_read = self.next_read + 1;
        x
    }

    /// How many resources were taken.
    pub fn num_used(&self) -> (n: usize)
        ensures
            n == self@.next_read,
    {
        self.next_read
    }

    /// Whether a taken resource is still to be written back.
    pub fn can_repack(&self) -> (b: bool)
        ensures
            b == self@.can_repack(),
    {
        self.next_write < self.next_read
    }

    /// Writes `x` over the oldest taken resource that was not written back yet.
    pub fn repack(&mut self, x: T)
        requires
            old(self)@.wf(),
            old(self)@.can_repack(),
        ensures
            final(self)@ == old(self)@.repack(x),
            final(self)@.wf(),
    {
        self.items.set(self.next_write, x);
        self.next_write = self.next_write + 1;
    }

    /// Whether every resource that was taken was written back.
    pub fn all_repacked(&self) -> (b: bool)
        ensures
            b == (self@.next_write == self@.next_read),
    {
        self.next_write == self.next_read
    }

    /// How many resources were written back.
    pub fn num_packed(&self) -> (n: usize)
        ensures
            n == self@.next_write,
    {
        self.next_write
    }

    /// The resource written back at position `i`.
    pub fn get_packed(&self, i: usize) -> (x: T)
        requires
            self@.wf(),
            i < self@.next_write,
        ensures
            x == self@.items[i as int],
    {
        self.items[i]
    }
}

/// A legal operation keeps the pool well formed.
pub proof fn lemma_step_preserves_wf<T>(s: PoolState<T>, op: PoolOp<T>)
    requires
        s.wf(),
        s.admits(op),
    ensures
        s.step(op).wf(),
{
}

/// Writing back is legal exactly at a position that was already taken.
pub proof fn lemma_repack_only_below_next_read<T>(s: PoolState<T>, x: T)
    requires
        s.wf(),
    ensures
        s.admits(PoolOp::Repack(x)) <==> s.next_write < s.next_read,
        s.admits(PoolOp::Repack(x)) ==> s.repack(x).items[s.next_write as int] == x,
{
}

/// After any legal sequence of operations on a fresh pool, the pool is well
/// formed, as many positions are written back as the sequence wrote, and
/// position `i` holds the `i`-th value written back.
pub proof fn lemma_packed_are_repacked<T>(ops: Seq<PoolOp<T>>)
    requires
        PoolState::<T>::empty().admits_all(ops),
    ensures
        PoolState::<T>::empty().run(ops).wf(),
        PoolState::<T>::empty().run(ops).next_write == repacked(ops).len(),
        forall|i: int|
            0 <= i < repacked(ops).len() ==> PoolState::<T>::empty().run(ops).items[i] == repacked(
                ops,
            )[i],
    decreases ops.len(),
{
    if ops.len() > 0 {
        let before = ops.drop_last();
        lemma_packed_are_repacked(before);
        let s = PoolState::<T>::empty().run(before);
        lemma_step_preserves_wf(s, ops.last());
    }
}

/// Supplying `xs` one by one is legal on a fresh pool when `xs` fits, and
/// leaves exactly `xs` in the pool.
pub proof fn lemma_supplies_run<T>(xs: Seq<T>)
    requires
        xs.len() <= CAP,
    ensures
        PoolState::<T>::empty().admits_all(supplies(xs)),
        PoolState::<T>::empty().run(supplies(xs)) == PoolState::<T>::empty().supply_all(xs),
    decreases xs.len(),
{
    let e = PoolState::<T>::empty();
    if xs.len() > 0 {
        let front = xs.drop_last();
        lemma_supplies_run(front);
        assert(supplies(xs).drop_last() =~= supplies(front));
        assert(supplies(xs).last() == PoolOp::Supply(xs.last()));
        assert(e.supply_all(front).items.push(xs.last()) =~= e.supply_all(xs).items);
    } else {
        assert(e.supply_all(xs).items =~= e.items);
    }
}

/// `n` takes in a row are legal when `n` resources are left, and move the
/// read cursor by `n`.
pub proof fn lemma_takes_run<T>(s: PoolState<T>, n: nat)
    requires
        s.next_read + n <= s.items.len(),
    ensures
        s.admits_all(takes(n)),
        s.run(takes(n)) == s.take_n(n),
    decreases n,
{
    if n > 0 {
        let m = (n - 1) as nat;
        lemma_takes_run(s, m);
        assert(takes::<T>(n).drop_last() =~= takes::<T>(m));
        assert(takes::<T>(n).last() == PoolOp::<T>::Take);
    }
}

/// When `xs` fits the pool and is supplied to a fresh one, the takes that
/// follow return `xs` in supply order, and after as many takes as there are
/// resources no further take is legal.
pub proof fn lemma_take_in_supply_order<T>(xs: Seq<T>, i: nat)
    requires
        xs.len() <= CAP,
        i <= xs.len(),
    ensures
        PoolState::<T>::empty().admits_all(supplies(xs)),
        PoolState::<T>::empty().run(supplies(xs)).admits_all(takes(i)),
        i < xs.len() ==> {
            let s = PoolState::<T>::empty().run(supplies(xs)).run(takes(i));
            s.can_take() && s.front() == xs[i as int]
        },
        i == xs.len() ==> !PoolState::<T>::empty().run(supplies(xs)).run(takes(i)).can_take(),
{
    lemma_supplies_run(xs);
    let s = PoolState::<T>::empty().supply_all(xs);
    assert(s.items =~= xs);
    lemma_takes_run(s, i);
}

} // verus!
