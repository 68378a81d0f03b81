//! The owning count that every handler carries, and the lifecycle that the
//! engine drives through it.
//!
//! A handler is created with one owner. Each owner that takes a reference adds
//! one, each owner that drops one releases it, and the release that brings the
//! count to zero is the one that frees the object. Nothing may touch an object
//! after that release: every operation that changes the count asks for a live
//! object.
//!
//! The count can be read from outside but is changed only by these
//! operations, and they take the object by exclusive reference. Two of them
//! never run at once, so the steps on one object form a single sequence
//! whatever threads they come from; a host that shares an object between
//! threads keeps it behind a lock.

use vstd::prelude::*;

verus! {

/// One step of the lifecycle.
#[derive(Clone, Copy, Debug, PartialEq, Eq, Structural)]
pub enum RefOp {
    AddRef,
    Release,
}

/// The count after one step.
pub open spec fn count_after_op(count: nat, op: RefOp) -> nat {
    match op {
        RefOp::AddRef => count + 1,
        RefOp::Release => (count - 1) as nat,
    }
}

/// Whether a step taken at `count` frees the object.
pub open spec fn op_frees(count: nat, op: RefOp) -> bool {
    op == RefOp::Release && count == 1
}

/// Every step of `ops`, taken in order from `count`, finds a live object.
pub open spec fn live_throughout(count: nat, ops: Seq<RefOp>) -> bool
    decreases ops.len(),
{
    ops.len() == 0 || (count >= 1 && live_throughout(
        count_after_op(count, ops[0]),
        ops.drop_first(),
    ))
}

/// The count after the steps of `ops`, taken in order from `count`.
pub open spec fn count_after(count: nat, ops: Seq<RefOp>) -> nat
    decreases ops.len(),
{
    if ops.len() == 0 {
        count
    } else {
        count_after(count_after_op(count, ops[0]), ops.drop_first())
    }
}

/// How many steps of `ops`, taken in order from `count`, free the object.
pub open spec fn frees(count: nat, ops: Seq<RefOp>) -> nat
    decreases ops.len(),
{
    if ops.len() == 0 {
        0
    } else {
        (if op_frees(count, ops[0]) {
            1nat
        } else {
            0nat
        }) + frees(count_after_op(count, ops[0]), ops.drop_first())
    }
}

/// How many steps of `ops` are `op`.
pub open spec fn occurrences(ops: Seq<RefOp>, op: RefOp) -> nat
    decreases ops.len(),
{
    if ops.len() == 0 {
        0
    } else {
        (if ops[0] == op {
            1nat
        } else {
            0nat
        }) + occurrences(ops.drop_first(), op)
    }
}

/// The count of owners of one object.
#[derive(Debug)]
pub struct RefCount {
    count: usize,
}

impl RefCount {
    /// The number of owners.
    pub closed spec fn count(&self) -> nat {
        self.count as nat
    }

    /// A count for a freshly created object: its creator is the one owner.
    pub fn new() -> (c: RefCount)
        ensures
            c.count() == 1,
    {
        RefCount { count: 1 }
    }

    /// The number of owners.
    pub fn get(&self) -> (n: usize)
        ensures
            n == self.count(),
    {
        self.count
    }

    /// Adds an owner.
    pub fn add_ref(&mut self)
        requires
            1 <= old(self).count() < usize::MAX,
        ensures
            final(self).count() == old(self).count() + 1,
    {
        self.count = self.count + 1;
    }

    /// Drops an owner, and says whether that was the last one: the object is
    /// to be freed exactly when this returns `true`.
    pub fn release(&mut self) -> (freed: bool)
        requires
            old(self).count() >= 1,
        ensures
            final(self).count() == old(self).count() - 1,
            freed == (final(self).count() == 0),
    {
        self.count = self.count - 1;
        self.count == 0
    }

    /// Whether there is exactly one owner.
    pub fn has_one_ref(&self) -> (one: bool)
        ensures
            one == (self.count() == 1),
    {
        self.count == 1
    }

    /// Whether there is an owner at all.
    pub fn has_at_least_one_ref(&self) -> (owned: bool)
        ensures
            owned == (self.count() >= 1),
    {
        self.count >= 1
    }
}

/// The lifecycle that the engine drives on every handler.
pub trait RefCounted {
    /// The number of owners.
    spec fn ref_count(&self) -> nat;

    /// The number of owners.
    fn owners(&self) -> (owners: usize)
        ensures
            owners == self.ref_count(),
    ;

    /// Adds an owner.
    fn add_ref(&mut self)
        requires
            1 <= old(self).ref_count() < usize::MAX,
        ensures
            final(self).ref_count() == count_after_op(old(self).ref_count(), RefOp::AddRef),
    ;

    /// Drops an owner, and says whether the object is to be freed.
    fn release(&mut self) -> (freed: bool)
        requires
            old(self).ref_count() >= 1,
        ensures
            final(self).ref_count() == count_after_op(old(self).ref_count(), RefOp::Release),
            freed == op_frees(old(self).ref_count(), RefOp::Release),
    ;

    /// Whether there is exactly one owner.
    fn has_one_ref(&self) -> (one: bool)
        ensures
            one == (self.ref_count() == 1),
    ;

    /// Whether there is an owner at all.
    fn has_at_least_one_ref(&self) -> (owned: bool)
        ensures
            owned == (self.ref_count() >= 1),
    ;
}

impl RefCounted for RefCount {
    open spec fn ref_count(&self) -> nat {
        self.count()
    }

    fn owners(&self) -> (owners: usize) {
        self.get()
    }

    fn add_ref(&mut self) {
        RefCount::add_ref(self)
    }

    fn release(&mut self) -> (freed: bool) {
        RefCount::release(self)
    }

    fn has_one_ref(&self) -> (one: bool) {
        RefCount::has_one_ref(self)
    }

    fn has_at_least_one_ref(&self) -> (owned: bool) {
        RefCount::has_at_least_one_ref(self)
    }
}

/// Over any run of steps that each find a live object, the count ends at its
/// start plus the references added minus those released, and the object is
/// freed at most once: exactly once if the count ends at zero, and not at all
/// otherwise.
pub proof fn lemma_count_balance(count: nat, ops: Seq<RefOp>)
    requires
        count >= 1,
        live_throughout(count, ops),
    ensures
        count_after(count, ops) == count + occurrences(ops, RefOp::AddRef) - occurrences(
            ops,
            RefOp::Release,
        ),
        frees(count, ops) == (if count_after(count, ops) == 0 {
            1nat
        } else {
            0nat
        }),
    decreases ops.len(),
{
    if ops.len() > 0 {
        let next = count_after_op(count, ops[0]);
        let rest = ops.drop_first();
        if next == 0 {
            reveal_with_fuel(live_throughout, 2);
            assert(rest.len() == 0);
            assert(count_after(next, rest) == 0);
            assert(frees(next, rest) == 0);
            assert(occurrences(rest, RefOp::AddRef) == 0);
            assert(occurrences(rest, RefOp::Release) == 0);
        } else {
            lemma_count_balance(next, rest);
        }
    }
}

/// The step that frees the object is the last one: once the count has reached
/// zero, no further step finds a live object.
pub proof fn lemma_freed_is_final(count: nat, ops: Seq<RefOp>, i: int)
    requires
        live_throughout(count, ops),
        0 <= i < ops.len(),
        op_frees(count_after(count, ops.take(i)), ops[i]),
    ensures
        i == ops.len() - 1,
        count_after(count, ops) == 0,
    decreases i,
{
    if i == 0 {
        reveal_with_fuel(live_throughout, 2);
        reveal_with_fuel(count_after, 2);
        assert(ops.take(0).len() == 0);
        assert(count_after_op(count, ops[0]) == 0);
        assert(ops.drop_first().len() == 0);
    } else {
        let next = count_after_op(count, ops[0]);
        let rest = ops.drop_first();
        assert(ops.take(i).drop_first() =~= rest.take(i - 1));
        assert(ops.take(i)[0] == ops[0]);
        assert(count_after(count, ops.take(i)) == count_after(next, rest.take(i - 1)));
        lemma_freed_is_final(next, rest, i - 1);
    }
}

} // verus!
