//! The no-op wakeup handle: a sentinel payload paired with the shared
//! behavior table, whose four behaviors all leave every observable state alone.

use vstd::prelude::*;

verus! {

/// `core::task::Waker`, carried as an opaque value into a polling context.
#[verifier::external_type_specification]
#[verifier::external_body]
pub struct ExWaker(core::task::Waker);

/// Holds of std's no-op waker: null payload, and the shared table whose clone
/// gives the same waker back and whose wake, wake-by-reference and drop do nothing.
pub uninterp spec fn is_noop_waker(w: core::task::Waker) -> bool;

/// Relies on `core::task::Waker::noop`, which hands out a reference to the one
/// shared no-op waker.
pub assume_specification[ core::task::Waker::noop ]() -> (r: &'static core::task::Waker)
    ensures
        is_noop_waker(*r),
;

/// Relies on `Waker::clone`, which runs the waker's own clone behavior; on the
/// no-op waker that behavior returns the no-op waker again and cannot panic.
#[verifier::external_body]
fn clone_waker(w: &core::task::Waker) -> (r: core::task::Waker)
    requires
        is_noop_waker(*w),
    ensures
        is_noop_waker(r),
{
    w.clone()
}

/// The payload every handle carries. It is never read by any behavior.
pub const SENTINEL: usize = 0;

/// The four behaviors a handle dispatches through its table.
#[derive(Clone, Copy, Debug, PartialEq, Eq, Structural)]
pub enum Slot {
    Clone,
    Wake,
    WakeByRef,
    Drop,
}

/// What invoking a behavior does outside the handle itself.
#[derive(Clone, Copy, Debug, PartialEq, Eq, Structural)]
pub enum Effect {
    /// No scheduler is signalled, nothing is acquired or released.
    Nothing,
}

/// Identity of a behavior table. One table exists, shared by every handle.
#[derive(Clone, Copy, Debug, PartialEq, Eq, Structural)]
pub enum BehaviorTable {
    Noop,
}

impl BehaviorTable {
    /// The effect of invoking `slot` through this table.
    pub open spec fn effect(self, slot: Slot) -> Effect {
        match self {
            BehaviorTable::Noop => Effect::Nothing,
        }
    }
}

/// A wakeup handle: an opaque payload and the table its behaviors come from.
#[derive(Debug, PartialEq, Eq, Structural)]
pub struct NoopHandle {
    payload: usize,
    table: BehaviorTable,
}

impl NoopHandle {
    /// The table this handle dispatches through.
    pub closed spec fn table_spec(&self) -> BehaviorTable {
        self.table
    }

    /// A handle is well formed when its payload is the sentinel and its
    /// table is the shared no-op table.
    pub closed spec fn well_formed(&self) -> bool {
        self.payload == SENTINEL && self.table == BehaviorTable::Noop
    }

    /// What the clone behavior builds from this handle: the sentinel payload
    /// over the same table, with nothing read from the payload.
    pub closed spec fn cloned(&self) -> NoopHandle {
        NoopHandle { payload: SENTINEL, table: self.table }
    }

    /// The factory: a fresh handle over the shared no-op table.
    pub fn new() -> (h: Self)
        ensures
            h.well_formed(),
            h.table_spec() == BehaviorTable::Noop,
    {
        NoopHandle { payload: SENTINEL, table: BehaviorTable::Noop }
    }

    /// The table this handle dispatches through.
    pub fn table(&self) -> (t: BehaviorTable)
        ensures
            t == self.table_spec(),
    {
        self.table
    }

    /// The clone behavior: returns an equivalent handle without reading the
    /// payload and without acquiring anything.
    pub fn clone_handle(&self) -> (c: Self)
        requires
            self.well_formed(),
        ensures
            c == self.cloned(),
            c == *self,
            c.well_formed(),
    {
        match self.table {
            BehaviorTable::Noop => NoopHandle { payload: SENTINEL, table: BehaviorTable::Noop },
        }
    }

    /// The wake behavior: consumes the handle and reports what it did.
    pub fn wake(self) -> (e: Effect)
        ensures
            e == self.table_spec().effect(Slot::Wake),
            e == Effect::Nothing,
    {
        match self.table {
            BehaviorTable::Noop => Effect::Nothing,
        }
    }

    /// The wake-by-reference behavior: leaves the handle in place and reports
    /// what it did.
    pub fn wake_by_ref(&self) -> (e: Effect)
        ensures
            e == self.table_spec().effect(Slot::WakeByRef),
            e == Effect::Nothing,
    {
        match self.table {
            BehaviorTable::Noop => Effect::Nothing,
        }
    }

    /// The drop behavior: destroys the handle, which owns nothing to release.
    pub fn release(self) -> (e: Effect)
        ensures
            e == self.table_spec().effect(Slot::Drop),
            e == Effect::Nothing,
    {
        match self.table {
            BehaviorTable::Noop => Effect::Nothing,
        }
    }

    /// The `Waker` for a polling context that matches this handle's table:
    /// for the no-op table, an owned copy of std's no-op waker.
    pub fn to_waker(&self) -> (r: core::task::Waker)
        requires
            self.well_formed(),
        ensures
            is_noop_waker(r),
    {
        match self.table {
            BehaviorTable::Noop => clone_waker(core::task::Waker::noop()),
        }
    }
}

/// The effects of invoking `ops` in order, each through the table of `h`
/// (clones of `h` share it).
pub open spec fn effects(h: NoopHandle, ops: Seq<Slot>) -> Seq<Effect> {
    ops.map_values(|op: Slot| h.table_spec().effect(op))
}

/// Invoking clone, wake, wake-by-reference and drop on a handle any number of
/// times and in any order signals nothing and acquires or releases nothing.
pub proof fn lemma_operations_have_no_effect(h: NoopHandle, ops: Seq<Slot>)
    requires
        h.well_formed(),
    ensures
        effects(h, ops).len() == ops.len(),
        forall|i: int| 0 <= i < ops.len() ==> #[trigger] effects(h, ops)[i] == Effect::Nothing,
{
}

/// A clone is a well-formed handle equal to its source, so every sequence of
/// operations has the same effects on it as on the source.
pub proof fn lemma_clone_is_indistinguishable(h: NoopHandle, ops: Seq<Slot>)
    requires
        h.well_formed(),
    ensures
        h.cloned().well_formed(),
        h.cloned() == h,
        h.cloned().table_spec() == h.table_spec(),
        effects(h.cloned(), ops) == effects(h, ops),
{
}

/// Any two handles the factory produced are equal, share the one table, and
/// have the same effects under every sequence of operations.
pub proof fn lemma_factory_is_referentially_transparent(h1: NoopHandle, h2: NoopHandle, ops: Seq<Slot>)
    requires
        h1.well_formed(),
        h2.well_formed(),
    ensures
        h1 == h2,
        h1.table_spec() == h2.table_spec(),
        effects(h1, ops) == effects(h2, ops),
{
}

} // verus!
