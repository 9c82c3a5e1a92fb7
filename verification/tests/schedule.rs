use autoclicker::app::{AutoclickerMode, LoopConfig, MouseButton, PressKey};
use autoclicker::schedule::{loop_step, pairs_begun_within, LoopAction, LoopPhase};

fn config(interval_ms: u64, hold_ms: u64) -> LoopConfig {
    LoopConfig {
        mode: AutoclickerMode::Click,
        click_type: MouseButton::Left,
        key_press_type: PressKey::Space,
        interval_ms,
        hold_ms,
    }
}

/// Drive the step machine for `steps` transitions with a constant flag.
fn drive(cfg: &LoopConfig, mut phase: LoopPhase, flag: bool, steps: usize) -> Vec<LoopAction> {
    let mut actions = Vec::new();
    for _ in 0..steps {
        let (next, action) = loop_step(cfg, phase, flag);
        actions.push(action);
        phase = next;
    }
    actions
}

#[test]
fn one_cycle_is_press_hold_release_interval() {
    let cfg = config(1000, 100);
    let actions = drive(&cfg, LoopPhase::Check, true, 4);
    assert_eq!(
        actions,
        vec![
            LoopAction::Press,
            LoopAction::Sleep(100),
            LoopAction::Release,
            LoopAction::Sleep(1000),
        ]
    );
}

#[test]
fn three_seconds_hold_three_full_pairs() {
    // interval 1000 ms, hold 100 ms: pairs begin at 0, 1100 and 2200 ms,
    // three of them within a 3000 ms window, 100 ms inside each pair and
    // 1000 ms between pairs
    let cfg = config(1000, 100);
    let actions = drive(&cfg, LoopPhase::Check, true, 12);
    let presses = actions.iter().filter(|a| **a == LoopAction::Press).count();
    let releases = actions.iter().filter(|a| **a == LoopAction::Release).count();
    assert_eq!(presses, 3);
    assert_eq!(releases, 3);
    let slept: u64 = actions
        .iter()
        .map(|a| match a {
            LoopAction::Sleep(ms) => *ms,
            _ => 0,
        })
        .sum();
    assert_eq!(slept, 3300);
    assert_eq!(pairs_begun_within(1000, 100, 3000), Some(3));
}

#[test]
fn zero_interval_zero_hold_never_sleeps() {
    let cfg = config(0, 0);
    let actions = drive(&cfg, LoopPhase::Check, true, 400);
    for a in &actions {
        match a {
            LoopAction::Sleep(ms) => assert_eq!(*ms, 0),
            _ => {}
        }
    }
    let presses = actions.iter().filter(|a| **a == LoopAction::Press).count();
    assert_eq!(presses, 100);
    // no finite pair count exists for a non-empty window
    assert_eq!(pairs_begun_within(0, 0, 5), None);
    assert_eq!(pairs_begun_within(0, 0, 0), Some(0));
}

#[test]
fn cleared_flag_exits_at_the_next_check() {
    let cfg = config(1000, 100);
    let actions = drive(&cfg, LoopPhase::Check, false, 3);
    assert_eq!(
        actions,
        vec![LoopAction::Exit, LoopAction::Exit, LoopAction::Exit]
    );
}

#[test]
fn cleared_flag_mid_pair_finishes_the_pair_then_exits() {
    let cfg = config(1000, 100);
    let actions = drive(&cfg, LoopPhase::Pressed, false, 6);
    assert_eq!(
        actions,
        vec![
            LoopAction::Sleep(100),
            LoopAction::Release,
            LoopAction::Sleep(1000),
            LoopAction::Exit,
            LoopAction::Exit,
            LoopAction::Exit,
        ]
    );
}

#[test]
fn pair_counts_are_exact() {
    // period 1100: pairs begin at 0, 1100, 2200, 3300, ...
    assert_eq!(pairs_begun_within(1000, 100, 1), Some(1));
    assert_eq!(pairs_begun_within(1000, 100, 1100), Some(1));
    assert_eq!(pairs_begun_within(1000, 100, 1101), Some(2));
    assert_eq!(pairs_begun_within(1000, 100, 2200), Some(2));
    assert_eq!(pairs_begun_within(1000, 100, 3300), Some(3));
    assert_eq!(pairs_begun_within(1000, 100, 3301), Some(4));
    // hold-only and interval-only periods count the same way
    assert_eq!(pairs_begun_within(0, 100, 300), Some(3));
    assert_eq!(pairs_begun_within(10, 0, 100), Some(10));
    // an empty window is over before any pair begins
    assert_eq!(pairs_begun_within(7, 3, 0), Some(0));
}
