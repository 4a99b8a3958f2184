//! The one-shot trigger shared by the input loop and the audio callback.

use std::sync::atomic::AtomicBool;
use std::sync::atomic::Ordering;
use vstd::prelude::*;

verus! {

/// A single boolean cell: "a trigger was raised and nobody has consumed it
/// yet". The input loop raises it, the audio callback consumes it. There is
/// no queue and no count: raising a raised trigger changes nothing.
///
/// Both operations are single atomic instructions on the cell, so neither
/// blocks or allocates, and the cell can be shared by reference between the
/// two contexts. Its content is not visible to the verifier: another context
/// may change it between any two calls, so no contract below speaks of it.
/// What each operation does to the cell at the instant it takes effect is
/// written down in [`content_after`] and [`observed`].
pub struct TriggerFlag {
    pending: AtomicBool,
}

impl TriggerFlag {
    /// A cell with no trigger pending.
    pub fn new() -> (flag: TriggerFlag) {
        TriggerFlag { pending: AtomicBool::new(false) }
    }

    /// Marks a trigger as pending. Takes effect as [`FlagOp::SetPending`].
    ///
    /// The store is a release: a `take_and_clear` that runs after this call
    /// has returned sees it.
    pub fn set(&self) {
        self.pending.store(true, Ordering::Release);
    }

    /// Reads the cell and resets it in one indivisible step, and returns
    /// whether a trigger was pending. Takes effect as
    /// [`FlagOp::TakeAndClear`].
    pub fn take_and_clear(&self) -> (was_pending: bool) {
        self.pending.fetch_and(false, Ordering::AcqRel)
    }
}

/// The operations on the cell.
pub enum FlagOp {
    SetPending,
    TakeAndClear,
}

/// Content of a cell that held `pending` after the operations of `history`
/// took effect on it one at a time, in order.
pub open spec fn content_after(pending: bool, history: Seq<FlagOp>) -> bool {
    if history.len() == 0 {
        pending
    } else {
        history.last() is SetPending
    }
}

/// What the operation at position `at` of `history` finds in the cell. For a
/// `TakeAndClear` this is the value it returns.
pub open spec fn observed(pending: bool, history: Seq<FlagOp>, at: int) -> bool
    recommends
        0 <= at < history.len(),
{
    content_after(pending, history.take(at))
}

/// Number of operations among the first `upto` of `history` that are a
/// `TakeAndClear` returning `true`.
pub open spec fn triggers_taken(pending: bool, history: Seq<FlagOp>, upto: int) -> nat
    recommends
        0 <= upto <= history.len(),
    decreases upto,
{
    if upto <= 0 {
        0
    } else {
        let rest = triggers_taken(pending, history, upto - 1);
        if history[upto - 1] is TakeAndClear && observed(pending, history, upto - 1) {
            rest + 1
        } else {
            rest
        }
    }
}

/// `sets` times `SetPending`, then `takes` times `TakeAndClear`.
pub open spec fn sets_then_takes(sets: nat, takes: nat) -> Seq<FlagOp> {
    Seq::new(
        sets + takes,
        |i: int|
            if i < sets {
                FlagOp::SetPending
            } else {
                FlagOp::TakeAndClear
            },
    )
}

/// A `TakeAndClear` returns `true` exactly when the operation just before it
/// was a `SetPending`, or when it is the first operation on a cell that was
/// pending.
pub proof fn lemma_take_sees_last_operation(pending: bool, history: Seq<FlagOp>, at: int)
    requires
        0 <= at < history.len(),
    ensures
        observed(pending, history, at) == if at == 0 {
            pending
        } else {
            history[at - 1] is SetPending
        },
{
    if at > 0 {
        assert(history.take(at).last() == history[at - 1]);
    }
}

/// In the model of the cell, whatever it held before: when one `SetPending`
/// takes effect before a run of `TakeAndClear`, the first of them returns
/// `true` and every later one returns `false`. When the `SetPending` takes
/// effect after a `TakeAndClear` instead, the next `TakeAndClear` returns
/// `true`.
pub proof fn lemma_set_is_taken_exactly_once(pending: bool, takes: nat)
    requires
        takes >= 1,
    ensures
        observed(pending, sets_then_takes(1, takes), 1),
        forall|at: int| 1 < at < 1 + takes ==> !observed(pending, sets_then_takes(1, takes), at),
        triggers_taken(pending, sets_then_takes(1, takes), (1 + takes) as int) == 1,
        observed(pending, seq![FlagOp::TakeAndClear, FlagOp::SetPending, FlagOp::TakeAndClear], 2),
{
    lemma_repeated_set_is_taken_once(pending, 1, takes);
    let late = seq![FlagOp::TakeAndClear, FlagOp::SetPending, FlagOp::TakeAndClear];
    lemma_take_sees_last_operation(pending, late, 2);
}

/// In the model of the cell, whatever it held before: any number of
/// `SetPending`, one or more, followed by a run of `TakeAndClear` yields one
/// `true`, from the first of them, not one for each `SetPending`.
pub proof fn lemma_repeated_set_is_taken_once(pending: bool, sets: nat, takes: nat)
    requires
        sets >= 1,
        takes >= 1,
    ensures
        observed(pending, sets_then_takes(sets, takes), sets as int),
        forall|at: int|
            sets < at < sets + takes ==> !observed(pending, sets_then_takes(sets, takes), at),
        triggers_taken(pending, sets_then_takes(sets, takes), (sets + takes) as int) == 1,
{
    let history = sets_then_takes(sets, takes);
    lemma_take_sees_last_operation(pending, history, sets as int);
    assert forall|at: int| sets < at < sets + takes implies !observed(pending, history, at) by {
        lemma_take_sees_last_operation(pending, history, at);
    }
    lemma_no_take_among_sets(pending, sets, takes, sets as int);
    lemma_takes_counted(pending, sets, takes, (sets + takes) as int);
}

/// No `TakeAndClear` has returned anything while only `SetPending` took
/// effect.
proof fn lemma_no_take_among_sets(pending: bool, sets: nat, takes: nat, upto: int)
    requires
        0 <= upto <= sets,
    ensures
        triggers_taken(pending, sets_then_takes(sets, takes), upto) == 0,
    decreases upto,
{
    if upto > 0 {
        lemma_no_take_among_sets(pending, sets, takes, upto - 1);
    }
}

/// From the first `TakeAndClear` on, the count of `true` returns stays at one.
proof fn lemma_takes_counted(pending: bool, sets: nat, takes: nat, upto: int)
    requires
        sets >= 1,
        sets < upto <= sets + takes,
    ensures
        triggers_taken(pending, sets_then_takes(sets, takes), upto) == 1,
    decreases upto,
{
    let history = sets_then_takes(sets, takes);
    lemma_take_sees_last_operation(pending, history, upto - 1);
    if upto - 1 == sets {
        lemma_no_take_among_sets(pending, sets, takes, sets as int);
    } else {
        lemma_takes_counted(pending, sets, takes, upto - 1);
    }
}

} // verus!
