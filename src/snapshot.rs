//! Single-slot, latest-wins hand-off of simulation snapshots to the renderer.
use vstd::prelude::*;

verus! {

/// What the slot holds after publishing `v`: `v`, whatever was there.
pub open spec fn after_publish<T>(held: Option<T>, v: T) -> Option<T> {
    Some(v)
}

/// What a take returns: the value held, if any.
pub open spec fn take_result<T>(held: Option<T>) -> Option<T> {
    held
}

/// What the slot holds after a take: nothing.
pub open spec fn after_take<T>(held: Option<T>) -> Option<T> {
    None
}

/// At most one pending value; a new one replaces one not yet taken.
pub struct SnapshotSlot<T> {
    pending: Option<T>,
}

impl<T> View for SnapshotSlot<T> {
    type V = Option<T>;

    closed spec fn view(&self) -> Option<T> {
        self.pending
    }
}

impl<T> SnapshotSlot<T> {
    /// An empty slot.
    pub fn new() -> (r: Self)
        ensures
            r@ == None::<T>,
    {
        SnapshotSlot { pending: None }
    }

    /// Overwrites whatever the slot holds; never blocks.
    pub fn publish(&mut self, v: T)
        ensures
            final(self)@ == after_publish(old(self)@, v),
    {
        self.pending = Some(v);
    }

    /// Takes the value published since the last successful take, if any;
    /// never blocks.
    pub fn try_take(&mut self) -> (r: Option<T>)
        ensures
            r == take_result(old(self)@),
            final(self)@ == after_take(old(self)@),
    {
        let mut out: Option<T> = None;
        std::mem::swap(&mut out, &mut self.pending);
        out
    }

    /// Whether a value waits to be taken.
    pub fn has_pending(&self) -> (r: bool)
        ensures
            r == self@.is_some(),
    {
        self.pending.is_some()
    }
}

/// The snapshot a render pass uses: a fresh one if a take returned one,
/// else the one it already held.
pub fn newest_snapshot<T>(held: Option<T>, fresh: Option<T>) -> (r: Option<T>)
    ensures
        fresh.is_some() ==> r == fresh,
        fresh.is_none() ==> r == held,
{
    match fresh {
        Some(v) => Some(v),
        None => held,
    }
}

/// Latest wins: after `v1` and then `v2` are published with no take between,
/// the next take returns exactly `v2`; a take right after a take returns
/// nothing.
pub proof fn lemma_latest_wins<T>(held: Option<T>, v1: T, v2: T)
    ensures
        take_result(after_publish(after_publish(held, v1), v2)) == Some(v2),
        after_take(after_publish(after_publish(held, v1), v2)) == None::<T>,
        take_result(after_take(held)) == None::<T>,
{
}

} // verus!
