//! The pending-file slot: process-wide storage for at most one markdown
//! path, written during startup and claimed exactly once by the UI.
//!
//! Abstractly the slot is a two-state machine: EMPTY, the initial state,
//! and FULL(path). A deposit moves it to FULL(path) whatever it held; a
//! take returns what it held and moves it to EMPTY, so a drained or fresh
//! slot answers every further take with an absent result. The composition
//! root owns the one slot and is expected to guard it (e.g. behind a
//! mutex) when deposit and take run on different execution contexts.

use vstd::prelude::*;

verus! {

/// The slot state after a deposit of `path`: FULL(path), whatever was
/// held before (last deposit wins).
pub open spec fn slot_after_deposit(state: Option<Seq<char>>, path: Seq<char>) -> Option<
    Seq<char>,
> {
    Some(path)
}

/// What a take on a slot in `state` returns: the held path, or absent.
pub open spec fn slot_take_result(state: Option<Seq<char>>) -> Option<Seq<char>> {
    state
}

/// The slot state after a take: EMPTY, whatever was held before.
pub open spec fn slot_after_take(state: Option<Seq<char>>) -> Option<Seq<char>> {
    None
}

/// Storage for at most one pending markdown path. Its view is the
/// abstract state: `None` for EMPTY, `Some(path)` for FULL(path).
pub struct PendingFileSlot {
    value: Option<String>,
}

impl View for PendingFileSlot {
    type V = Option<Seq<char>>;

    closed spec fn view(&self) -> Option<Seq<char>> {
        self.value.deep_view()
    }
}

impl PendingFileSlot {
    /// A fresh slot, in the EMPTY state.
    pub fn new() -> (r: Self)
        ensures
            r@ is None,
    {
        PendingFileSlot { value: None }
    }

    /// Overwrite the slot with `path`, unconditionally.
    pub fn deposit(&mut self, path: String)
        ensures
            final(self)@ == slot_after_deposit(old(self)@, path@),
    {
        self.value = Some(path);
    }

    /// Read the held path, if any, and reset the slot to EMPTY. Absence
    /// is an ordinary result, never an error.
    pub fn take(&mut self) -> (r: Option<String>)
        ensures
            r.deep_view() == slot_take_result(old(self)@),
            final(self)@ == slot_after_take(old(self)@),
    {
        self.value.take()
    }
}

/// Round trip: whatever a slot held, after a deposit of `p` one take
/// yields `p` and leaves the slot EMPTY.
pub proof fn lemma_deposit_take_roundtrip(state: Option<Seq<char>>, p: Seq<char>)
    ensures
        slot_take_result(slot_after_deposit(state, p)) == Some(p),
        slot_after_take(slot_after_deposit(state, p)) is None,
{
}

/// A freshly initialized (or drained) slot answers a take with an absent
/// result and stays EMPTY.
pub proof fn lemma_take_fresh()
    ensures
        slot_take_result(Option::<Seq<char>>::None) is None,
        slot_after_take(Option::<Seq<char>>::None) is None,
{
}

/// Exactly-once delivery: two takes in a row after one deposit of `p`
/// yield `p` and then absent, never `p` twice.
pub proof fn lemma_take_exactly_once(state: Option<Seq<char>>, p: Seq<char>)
    ensures
        slot_take_result(slot_after_deposit(state, p)) == Some(p),
        slot_take_result(slot_after_take(slot_after_deposit(state, p))) is None,
{
}

} // verus!
