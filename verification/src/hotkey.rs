//! Edge-triggered handling of the global hotkey.
//!
//! The hotkey's down-state is polled, not delivered as events, so a held
//! key is seen down on many consecutive polls.  To toggle once per
//! key-stroke the controller latches the state seen at the previous poll
//! and fires only on the transition from not-pressed to pressed.  The
//! lemmas here state the discipline's point: a key held down without
//! interruption fires exactly one toggle, and only seeing the key up
//! rearms the latch for the next one.

use vstd::prelude::*;

verus! {

/// Whether a poll fires the toggle: exactly at the transition from
/// not-pressed (the latch) to pressed (the poll).
pub open spec fn rising_edge(prev_latched: bool, key_down: bool) -> bool {
    key_down && !prev_latched
}

/// One poll of the hotkey: the new latch value (what this poll saw) and
/// whether this poll fires the toggle.
pub fn hotkey_poll(prev_latched: bool, key_down: bool) -> (r: (bool, bool))
    ensures
        r.0 == key_down,
        r.1 == rising_edge(prev_latched, key_down),
{
    (key_down, key_down && !prev_latched)
}

/// How many of the consecutive polls `polls` fire the toggle, starting
/// from latch value `prev`.
pub open spec fn toggle_count(prev: bool, polls: Seq<bool>) -> int
    decreases polls.len(),
{
    if polls.len() == 0 {
        0
    } else {
        (if rising_edge(prev, polls[0]) {
            1int
        } else {
            0int
        }) + toggle_count(polls[0], polls.drop_first())
    }
}

/// The latch value after the polls `polls`, starting from `prev`.
pub open spec fn latch_after(prev: bool, polls: Seq<bool>) -> bool {
    if polls.len() == 0 {
        prev
    } else {
        polls.last()
    }
}

/// Counting toggles distributes over splitting the polls, with the
/// latch carried across the split.
pub proof fn lemma_toggle_count_concat(prev: bool, a: Seq<bool>, b: Seq<bool>)
    ensures
        toggle_count(prev, a + b) == toggle_count(prev, a) + toggle_count(latch_after(prev, a), b),
    decreases a.len(),
{
    if a.len() == 0 {
        assert(a + b =~= b);
    } else {
        assert((a + b)[0] == a[0]);
        assert((a + b).drop_first() =~= a.drop_first() + b);
        lemma_toggle_count_concat(a[0], a.drop_first(), b);
        if a.len() == 1 {
            assert(latch_after(a[0], a.drop_first()) == a[0]);
            assert(a[0] == a.last());
        } else {
            assert(a.drop_first().last() == a.last());
        }
    }
}

/// With the latch already down, polls that keep seeing the key down
/// fire nothing.
pub proof fn lemma_latched_no_retrigger(polls: Seq<bool>)
    requires
        forall|i: int| 0 <= i < polls.len() ==> polls[i],
    ensures
        toggle_count(true, polls) == 0,
    decreases polls.len(),
{
    if polls.len() == 0 {
    } else {
        assert(polls[0]);
        lemma_latched_no_retrigger(polls.drop_first());
    }
}

/// Holding the hotkey down without interruption toggles the clicker
/// exactly once — on the first poll that sees it down — not repeatedly.
pub proof fn lemma_hold_toggles_once(polls: Seq<bool>)
    requires
        polls.len() > 0,
        forall|i: int| 0 <= i < polls.len() ==> polls[i],
    ensures
        toggle_count(false, polls) == 1,
{
    assert(polls[0]);
    lemma_latched_no_retrigger(polls.drop_first());
}

/// Seeing the key up rearms the latch: after any polls at all, one poll
/// with the key up followed by one with it down fires exactly one more
/// toggle.
pub proof fn lemma_release_rearms(prev: bool, polls: Seq<bool>)
    ensures
        toggle_count(prev, polls + seq![false, true]) == toggle_count(prev, polls) + 1,
{
    lemma_toggle_count_concat(prev, polls, seq![false, true]);
    let tail = seq![false, true];
    assert(tail.drop_first() =~= seq![true]);
    assert(seq![true].drop_first() =~= Seq::<bool>::empty());
    assert(toggle_count(true, Seq::<bool>::empty()) == 0);
    assert(tail[0] == false);
    assert(seq![true][0] == true);
    assert(toggle_count(false, seq![true]) == 1);
    assert(toggle_count(true, tail) == 1);
    assert(toggle_count(false, tail) == 1);
    assert(toggle_count(latch_after(prev, polls), tail) == 1);
}

} // verus!
