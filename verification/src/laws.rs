//! Properties of the event policy that hold of every state, proved once and
//! for all: the two cursor clamps, the idempotence of cancel, and the safety
//! of an empty listing.

use vstd::prelude::*;

use crate::nav::cancel;
use crate::nav::last_index;
use crate::nav::move_down;
use crate::nav::move_up;
use crate::state::StateView;

verus! {

/// The state after `n` move-selection-up events.
pub open spec fn move_up_n(v: StateView, n: nat) -> StateView
    decreases n,
{
    if n == 0 {
        v
    } else {
        move_up(move_up_n(v, (n - 1) as nat))
    }
}

/// The state after `n` move-selection-down events.
pub open spec fn move_down_n(v: StateView, n: nat) -> StateView
    decreases n,
{
    if n == 0 {
        v
    } else {
        move_down(move_down_n(v, (n - 1) as nat))
    }
}

/// Any number of move-selection-up events walks the cursor toward the top
/// and stops exactly at zero: the result is never negative, and the state
/// stays well formed.
pub proof fn lemma_move_up_clamps(v: StateView, n: nat)
    requires
        v.wf(),
    ensures
        move_up_n(v, n).wf(),
        move_up_n(v, n).selected == if v.selected - n >= 0 {
            v.selected - n
        } else {
            0
        },
        move_up_n(v, n).entries == v.entries,
    decreases n,
{
    if n > 0 {
        lemma_move_up_clamps(v, (n - 1) as nat);
    }
}

/// On a non-empty listing, any number of move-selection-down events walks
/// the cursor toward the bottom and saturates exactly at the last valid
/// index: the cursor never leaves the legal range, and the state stays well
/// formed.
pub proof fn lemma_move_down_saturates(v: StateView, n: nat)
    requires
        v.wf(),
        v.entries.len() > 0,
    ensures
        move_down_n(v, n).wf(),
        move_down_n(v, n).selected == if v.selected + n <= last_index(v) {
            v.selected + n
        } else {
            last_index(v)
        },
        move_down_n(v, n).entries == v.entries,
    decreases n,
{
    if n > 0 {
        lemma_move_down_saturates(v, (n - 1) as nat);
    }
}

/// Cancel is idempotent: applying it twice in a row yields the very state
/// that applying it once yields.
pub proof fn lemma_cancel_idempotent(v: StateView)
    ensures
        cancel(cancel(v)) == cancel(v),
{
    assert(cancel(cancel(v)) =~= cancel(v));
}

/// On an empty listing, moving the selection either way leaves the cursor at
/// zero and the state well formed.
pub proof fn lemma_empty_listing_safe(v: StateView)
    requires
        v.wf(),
        v.entries.len() == 0,
    ensures
        move_up(v).selected == 0,
        move_down(v).selected == 0,
        move_up(v).wf(),
        move_down(v).wf(),
{
}

} // verus!
