//! The emission loop as a verified step machine.
//!
//! A driver that owns the OS facilities repeatedly calls [`loop_step`]
//! with the current run flag, performs the returned [`LoopAction`]
//! (inject a press or release, sleep, or exit), and feeds the returned
//! phase back in.  The loop it realizes is
//!
//! ```text
//! while run_flag { press; sleep(hold); release; sleep(interval) }
//! ```
//!
//! The lemmas here pin down the loop's observable behaviour: while the
//! flag stays set, the k-th event pair begins after exactly
//! `k * (hold + interval)` milliseconds of requested sleep, with the
//! press and release of a pair separated by the hold duration; with a
//! zero interval and zero hold no sleep is ever requested; and once the
//! flag is cleared the loop emits no further press and exits after at
//! most the tail of the pair already in flight.

use vstd::prelude::*;
use vstd::arithmetic::div_mod::lemma_fundamental_div_mod;
use vstd::arithmetic::mul::lemma_mul_inequality;

use crate::app::LoopConfig;

verus! {

/// Where the loop stands between two actions.
#[derive(PartialEq, Eq, Structural, Copy, Clone, Debug)]
pub enum LoopPhase {
    /// About to check the run flag (the top of the loop).
    Check,
    /// The press was just emitted; the hold sleep is due.
    Pressed,
    /// The hold sleep is done; the release is due.
    Held,
    /// The release was just emitted; the interval sleep is due.
    Released,
}

/// What the driver must do next.
#[derive(PartialEq, Eq, Structural, Copy, Clone, Debug)]
pub enum LoopAction {
    /// Emit a press of the configured target.
    Press,
    /// Sleep for this many milliseconds.
    Sleep(u64),
    /// Emit a release of the configured target.
    Release,
    /// The run flag was clear: leave the loop.
    Exit,
}

/// One transition of the loop: the next phase and the action due in the
/// phase just left.
pub open spec fn step_spec(cfg: LoopConfig, phase: LoopPhase, run_flag: bool) -> (LoopPhase,
    LoopAction) {
    match phase {
        LoopPhase::Check => if run_flag {
            (LoopPhase::Pressed, LoopAction::Press)
        } else {
            (LoopPhase::Check, LoopAction::Exit)
        },
        LoopPhase::Pressed => (LoopPhase::Held, LoopAction::Sleep(cfg.hold_ms)),
        LoopPhase::Held => (LoopPhase::Released, LoopAction::Release),
        LoopPhase::Released => (LoopPhase::Check, LoopAction::Sleep(cfg.interval_ms)),
    }
}

/// One transition of the loop, for a driver to call.  The run flag is
/// read only at the top of the loop, so a cleared flag takes effect at
/// the next [`LoopPhase::Check`].
pub fn loop_step(cfg: &LoopConfig, phase: LoopPhase, run_flag: bool) -> (r: (LoopPhase, LoopAction))
    ensures
        r == step_spec(*cfg, phase, run_flag),
{
    match phase {
        LoopPhase::Check => if run_flag {
            (LoopPhase::Pressed, LoopAction::Press)
        } else {
            (LoopPhase::Check, LoopAction::Exit)
        },
        LoopPhase::Pressed => (LoopPhase::Held, LoopAction::Sleep(cfg.hold_ms)),
        LoopPhase::Held => (LoopPhase::Released, LoopAction::Release),
        LoopPhase::Released => (LoopPhase::Check, LoopAction::Sleep(cfg.interval_ms)),
    }
}

/// The actions of `n` consecutive steps while the run flag stays set.
pub open spec fn run_trace(cfg: LoopConfig, phase: LoopPhase, n: nat) -> Seq<LoopAction>
    decreases n,
{
    if n == 0 {
        Seq::empty()
    } else {
        seq![step_spec(cfg, phase, true).1] + run_trace(
            cfg,
            step_spec(cfg, phase, true).0,
            (n - 1) as nat,
        )
    }
}

/// The actions of `n` consecutive steps after the run flag was cleared.
pub open spec fn stop_trace(cfg: LoopConfig, phase: LoopPhase, n: nat) -> Seq<LoopAction>
    decreases n,
{
    if n == 0 {
        Seq::empty()
    } else {
        seq![step_spec(cfg, phase, false).1] + stop_trace(
            cfg,
            step_spec(cfg, phase, false).0,
            (n - 1) as nat,
        )
    }
}

/// Milliseconds of sleep an action requests.
pub open spec fn sleep_ms_of(a: LoopAction) -> int {
    match a {
        LoopAction::Sleep(ms) => ms as int,
        _ => 0,
    }
}

/// Total milliseconds of sleep a trace requests.
pub open spec fn sleep_total(t: Seq<LoopAction>) -> int
    decreases t.len(),
{
    if t.len() == 0 {
        0
    } else {
        sleep_ms_of(t[0]) + sleep_total(t.drop_first())
    }
}

/// How many presses a trace emits.
pub open spec fn press_count(t: Seq<LoopAction>) -> int
    decreases t.len(),
{
    if t.len() == 0 {
        0
    } else {
        (if t[0] is Press {
            1int
        } else {
            0int
        }) + press_count(t.drop_first())
    }
}

/// How many releases a trace emits.
pub open spec fn release_count(t: Seq<LoopAction>) -> int
    decreases t.len(),
{
    if t.len() == 0 {
        0
    } else {
        (if t[0] is Release {
            1int
        } else {
            0int
        }) + release_count(t.drop_first())
    }
}

/// How many actions of a trace still do work (anything but `Exit`).
pub open spec fn work_count(t: Seq<LoopAction>) -> int
    decreases t.len(),
{
    if t.len() == 0 {
        0
    } else {
        (if t[0] is Exit {
            0int
        } else {
            1int
        }) + work_count(t.drop_first())
    }
}

/// The milliseconds separating one event pair's start from the next:
/// the hold duration plus the inter-pair interval.
pub open spec fn pair_period(cfg: LoopConfig) -> int {
    cfg.hold_ms as int + cfg.interval_ms as int
}

/// One unfolding of each counter on a non-empty trace.
proof fn lemma_counts_step(t: Seq<LoopAction>)
    requires
        t.len() > 0,
    ensures
        sleep_total(t) == sleep_ms_of(t[0]) + sleep_total(t.drop_first()),
        press_count(t) == (if t[0] is Press {
            1int
        } else {
            0int
        }) + press_count(t.drop_first()),
        release_count(t) == (if t[0] is Release {
            1int
        } else {
            0int
        }) + release_count(t.drop_first()),
        work_count(t) == (if t[0] is Exit {
            0int
        } else {
            1int
        }) + work_count(t.drop_first()),
{
}

/// While the run flag stays set, `4 * k` steps from the top of the loop
/// emit exactly `k` full event pairs — press and release in equal number
/// — and request exactly `k * (hold + interval)` milliseconds of sleep.
/// So the k-th pair begins after `k * (hold + interval)` requested
/// milliseconds: pairs are separated by the interval, and within a pair
/// the release follows the press by the hold duration.
pub proof fn lemma_steady_emission(cfg: LoopConfig, k: nat)
    ensures
        sleep_total(run_trace(cfg, LoopPhase::Check, 4 * k)) == k * pair_period(cfg),
        press_count(run_trace(cfg, LoopPhase::Check, 4 * k)) == k,
        release_count(run_trace(cfg, LoopPhase::Check, 4 * k)) == k,
    decreases k,
{
    if k == 0 {
    } else {
        let t4 = run_trace(cfg, LoopPhase::Check, 4 * k);
        let t3 = run_trace(cfg, LoopPhase::Pressed, (4 * k - 1) as nat);
        let t2 = run_trace(cfg, LoopPhase::Held, (4 * k - 2) as nat);
        let t1 = run_trace(cfg, LoopPhase::Released, (4 * k - 3) as nat);
        let t0 = run_trace(cfg, LoopPhase::Check, (4 * k - 4) as nat);
        assert(t4 == seq![LoopAction::Press] + t3);
        assert(t3 == seq![LoopAction::Sleep(cfg.hold_ms)] + t2);
        assert(t2 == seq![LoopAction::Release] + t1);
        assert(t1 == seq![LoopAction::Sleep(cfg.interval_ms)] + t0);
        assert(t4[0] == LoopAction::Press);
        assert(t3[0] == LoopAction::Sleep(cfg.hold_ms));
        assert(t2[0] == LoopAction::Release);
        assert(t1[0] == LoopAction::Sleep(cfg.interval_ms));
        assert(t4.drop_first() =~= t3);
        assert(t3.drop_first() =~= t2);
        assert(t2.drop_first() =~= t1);
        assert(t1.drop_first() =~= t0);
        lemma_counts_step(t4);
        lemma_counts_step(t3);
        lemma_counts_step(t2);
        lemma_counts_step(t1);
        lemma_steady_emission(cfg, (k - 1) as nat);
        assert(4 * ((k - 1) as nat) == (4 * k - 4) as nat);
        assert(k * pair_period(cfg) == (k - 1) * pair_period(cfg) + pair_period(cfg))
            by (nonlinear_arith);
    }
}

/// With a zero interval and a zero hold duration, the loop requests no
/// sleep at all: the emission rate has no floor fixed by the loop, only
/// by the emission facility itself.
pub proof fn lemma_zero_config_no_sleep(cfg: LoopConfig, phase: LoopPhase, n: nat)
    requires
        cfg.interval_ms == 0,
        cfg.hold_ms == 0,
    ensures
        sleep_total(run_trace(cfg, phase, n)) == 0,
    decreases n,
{
    if n == 0 {
    } else {
        lemma_zero_config_no_sleep(cfg, step_spec(cfg, phase, true).0, (n - 1) as nat);
        assert(run_trace(cfg, phase, n).drop_first() =~= run_trace(
            cfg,
            step_spec(cfg, phase, true).0,
            (n - 1) as nat,
        ));
    }
}

/// What is still owed once the run flag is cleared, from each phase: the
/// tail of the pair already in flight, then exit.
pub open spec fn winddown_budget(phase: LoopPhase) -> int {
    match phase {
        LoopPhase::Check => 0,
        LoopPhase::Pressed => 3,
        LoopPhase::Held => 2,
        LoopPhase::Released => 1,
    }
}

/// How many releases are still owed once the run flag is cleared, from
/// each phase: one exactly when a press is dangling.
pub open spec fn winddown_releases(phase: LoopPhase) -> int {
    match phase {
        LoopPhase::Check => 0,
        LoopPhase::Pressed => 1,
        LoopPhase::Held => 1,
        LoopPhase::Released => 0,
    }
}

/// Cooperative stop: once the run flag is cleared, the loop emits no
/// further press, at most one release (the one completing a pair already
/// in flight), and does at most `winddown_budget` — never more than 3 —
/// actions of work before it does nothing but exit.  Stopping therefore
/// leaks no loop: at most one in-flight event pair completes.
pub proof fn lemma_cooperative_stop(cfg: LoopConfig, phase: LoopPhase, n: nat)
    ensures
        press_count(stop_trace(cfg, phase, n)) == 0,
        release_count(stop_trace(cfg, phase, n)) <= winddown_releases(phase),
        release_count(stop_trace(cfg, phase, n)) <= 1,
        work_count(stop_trace(cfg, phase, n)) <= winddown_budget(phase),
    decreases n,
{
    if n == 0 {
    } else {
        let t = stop_trace(cfg, phase, n);
        let rest = stop_trace(cfg, step_spec(cfg, phase, false).0, (n - 1) as nat);
        lemma_cooperative_stop(cfg, step_spec(cfg, phase, false).0, (n - 1) as nat);
        assert(t == seq![step_spec(cfg, phase, false).1] + rest);
        assert(t[0] == step_spec(cfg, phase, false).1);
        assert(t.drop_first() =~= rest);
        lemma_counts_step(t);
    }
}

/// How many event pairs begin within the first `window_ms` milliseconds
/// of requested sleep: by [`lemma_steady_emission`] the k-th pair begins
/// after `k * (interval_ms + hold_ms)` of them.  The count is the least
/// `n` whose pair would begin at or past the window's end.  `None` when
/// interval and hold are both zero and the window is not empty: then the
/// loop requests no sleep at all and no finite count exists — the rate
/// is bounded only by the emission facility.
pub fn pairs_begun_within(interval_ms: u64, hold_ms: u64, window_ms: u64) -> (r: Option<u64>)
    ensures
        r is None <==> (interval_ms == 0 && hold_ms == 0 && window_ms > 0),
        r matches Some(n) ==> forall|k: int|
            0 <= k < n ==> #[trigger] (k * (interval_ms + hold_ms)) < window_ms,
        r matches Some(n) ==> (n as int) * (interval_ms + hold_ms) >= window_ms,
{
    if window_ms == 0 {
        return Some(0);
    }
    let period: u128 = interval_ms as u128 + hold_ms as u128;
    if period == 0 {
        return None;
    }
    let num: u128 = window_ms as u128 + period - 1;
    let n: u128 = num / period;
    proof {
        let w = window_ms as int;
        let p = period as int;
        let q = n as int;
        lemma_fundamental_div_mod(w + p - 1, p);
        assert(w + p - 1 == p * q + ((w + p - 1) % p));
        assert(p * q >= w);
        assert(q <= w) by (nonlinear_arith)
            requires
                p >= 1,
                w >= 1,
                q >= 0,
                p * q <= w + p - 1,
        ;
        assert forall|k: int| 0 <= k < q implies #[trigger] (k * (interval_ms + hold_ms))
            < window_ms by {
            lemma_mul_inequality(k, q - 1, p);
            assert((q - 1) * p == q * p - p) by (nonlinear_arith);
            assert(q * p == p * q) by (nonlinear_arith);
        }
    }
    Some(n as u64)
}

} // verus!
