//! Controller state and its start/stop transitions.
//!
//! [`AutoclickerApp`] carries the user-facing configuration (event kind,
//! target, interval and hold durations, the text of the numeric fields)
//! together with the run flag and the hotkey latch.  `start` captures the
//! configuration into a [`LoopConfig`] for a driver to run the emission
//! loop with (see [`crate::schedule`]); `stop` clears the run flag and
//! lets the loop wind down cooperatively.

use vstd::prelude::*;
use vstd::string::*;

use crate::hotkey::rising_edge;
use crate::utils::{parse_or_zero, parse_u32_or_zero, sanitize_spec, sanitize_string};

verus! {

/// The length cap applied to each numeric text field.
pub const FIELD_TEXT_CAP: usize = 5;

/// Which kind of synthetic input the loop emits.
#[derive(PartialEq, Eq, Structural, Copy, Clone, Debug)]
pub enum AutoclickerMode {
    Click,
    KeyPress,
}

/// The mouse button a `Click` pair presses and releases.
#[derive(PartialEq, Eq, Structural, Copy, Clone, Debug)]
pub enum MouseButton {
    Left,
    Right,
}

/// The keyboard key a `KeyPress` pair presses and releases.
#[derive(PartialEq, Eq, Structural, Copy, Clone, Debug)]
pub enum PressKey {
    KeyA,
    KeyB,
    KeyC,
    KeyD,
    KeyE,
    KeyF,
    KeyG,
    KeyH,
    KeyI,
    KeyJ,
    KeyK,
    KeyL,
    KeyM,
    KeyN,
    KeyO,
    KeyP,
    KeyQ,
    KeyR,
    KeyS,
    KeyT,
    KeyU,
    KeyV,
    KeyW,
    KeyX,
    KeyY,
    KeyZ,
    Num0,
    Num1,
    Num2,
    Num3,
    Num4,
    Num5,
    Num6,
    Num7,
    Num8,
    Num9,
    Space,
    Return,
    Backspace,
    ShiftLeft,
    UpArrow,
    DownArrow,
    LeftArrow,
    RightArrow,
}

/// The global key that toggles the clicker.
#[derive(PartialEq, Eq, Structural, Copy, Clone, Debug)]
pub enum HotkeyCode {
    F6,
}

/// The configuration one run of the emission loop is started with,
/// captured by value when the controller starts.
#[derive(PartialEq, Eq, Structural, Copy, Clone, Debug)]
pub struct LoopConfig {
    pub mode: AutoclickerMode,
    pub click_type: MouseButton,
    pub key_press_type: PressKey,
    /// Milliseconds between the end of one event pair and the start of the next.
    pub interval_ms: u64,
    /// Milliseconds the input is held down between press and release.
    pub hold_ms: u64,
}

/// The controller: configuration fields as edited by the presentation
/// layer, plus the run flag and the hotkey latch.
#[derive(Debug)]
pub struct AutoclickerApp {
    /// Model of the shared run flag: true while a loop is meant to run.
    pub running: bool,

    pub mode: AutoclickerMode,

    pub key_press_type: PressKey,
    pub click_type: MouseButton,

    /// Seconds part of the interval, and the text field it is parsed from.
    pub s: u32,
    pub s_str: String,
    /// Milliseconds part of the interval, and the text field it is parsed from.
    pub ms: u32,
    pub ms_str: String,

    /// Whether the hold-duration fields are shown by the presentation layer.
    pub hold: bool,

    /// Seconds part of the hold duration, and its text field.
    pub hold_s: u32,
    pub hold_s_str: String,
    /// Milliseconds part of the hold duration, and its text field.
    pub hold_ms: u32,
    pub hold_ms_str: String,

    pub hotkey: HotkeyCode,
    /// Latch for edge-triggered hotkey handling: was the hotkey down at
    /// the previous poll?
    pub hotkey_pressed: bool,
}

/// `app` with the run flag replaced by `running`, all else unchanged.
pub open spec fn with_running(app: AutoclickerApp, running: bool) -> AutoclickerApp {
    AutoclickerApp { running, ..app }
}

/// `app` with the hotkey latch replaced by `latched`, all else unchanged.
pub open spec fn with_latch(app: AutoclickerApp, latched: bool) -> AutoclickerApp {
    AutoclickerApp { hotkey_pressed: latched, ..app }
}

/// The configuration `start` captures: interval and hold duration each
/// combined from their seconds and milliseconds fields.
pub open spec fn captured_config(app: AutoclickerApp) -> LoopConfig {
    LoopConfig {
        mode: app.mode,
        click_type: app.click_type,
        key_press_type: app.key_press_type,
        interval_ms: ((app.s as int) * 1000 + (app.ms as int)) as u64,
        hold_ms: ((app.hold_s as int) * 1000 + (app.hold_ms as int)) as u64,
    }
}

impl AutoclickerApp {
    /// A stopped controller with the default configuration: left-button
    /// clicks every second, held for 100 ms.
    pub fn new() -> (app: Self)
        ensures
            !app.running,
            app.mode == AutoclickerMode::Click,
            app.key_press_type == PressKey::Space,
            app.click_type == MouseButton::Left,
            app.s == 1u32 && app.s_str@ == "1"@,
            app.ms == 0u32 && app.ms_str@ == "0"@,
            !app.hold,
            app.hold_s == 0u32 && app.hold_s_str@ == "0"@,
            app.hold_ms == 100u32 && app.hold_ms_str@ == "100"@,
            app.hotkey == HotkeyCode::F6,
            !app.hotkey_pressed,
    {
        Self {
            running: false,
            mode: AutoclickerMode::Click,

            key_press_type: PressKey::Space,
            click_type: MouseButton::Left,

            s: 1,
            s_str: String::from_str("1"),
            ms: 0,
            ms_str: String::from_str("0"),

            hold: false,

            hold_s: 0,
            hold_s_str: String::from_str("0"),
            hold_ms: 100,
            hold_ms_str: String::from_str("100"),

            hotkey: HotkeyCode::F6,
            hotkey_pressed: false,
        }
    }

    /// Request the emission loop to run.  A no-op while already running:
    /// at most one loop is ever handed out per running period.  Otherwise
    /// sets the run flag and returns the captured configuration for a
    /// driver to run the loop with.
    pub fn start(&mut self) -> (spawn: Option<LoopConfig>)
        ensures
            final(self).running,
            spawn is Some <==> !old(self).running,
            old(self).running ==> *final(self) == *old(self),
            !old(self).running ==> *final(self) == with_running(*old(self), true),
            !old(self).running ==> spawn == Some(captured_config(*old(self))),
    {
        if self.running {
            return None;
        }
        self.running = true;

        Some(
            LoopConfig {
                mode: self.mode,
                click_type: self.click_type,
                key_press_type: self.key_press_type,
                interval_ms: (self.s as u64) * 1000 + (self.ms as u64),
                hold_ms: (self.hold_s as u64) * 1000 + (self.hold_ms as u64),
            },
        )
    }

    /// Clear the run flag.  The loop observes this at its next flag check
    /// and exits; the call does not wait for it (cooperative stop).
    pub fn stop(&mut self)
        ensures
            *final(self) == with_running(*old(self), false),
    {
        self.running = false;
    }

    /// One poll of the global hotkey, edge-triggered: exactly on the
    /// transition from not-pressed to pressed the clicker toggles —
    /// stop while running, start while stopped.  A key seen down on
    /// poll after poll fires nothing further until it is seen up again.
    pub fn hotkey_tick(&mut self, key_down: bool) -> (spawn: Option<LoopConfig>)
        ensures
            final(self).hotkey_pressed == key_down,
            !rising_edge(old(self).hotkey_pressed, key_down) ==> *final(self) == with_latch(
                *old(self),
                key_down,
            ) && spawn is None,
            rising_edge(old(self).hotkey_pressed, key_down) && old(self).running ==> *final(self)
                == with_latch(with_running(*old(self), false), key_down) && spawn is None,
            rising_edge(old(self).hotkey_pressed, key_down) && !old(self).running ==> *final(self)
                == with_latch(with_running(*old(self), true), key_down) && spawn == Some(
                captured_config(*old(self)),
            ),
    {
        let was_latched = self.hotkey_pressed;
        self.hotkey_pressed = key_down;
        if key_down && !was_latched {
            if self.running {
                self.stop();
                None
            } else {
                self.start()
            }
        } else {
            None
        }
    }

    /// One presentation tick's upkeep of the numeric fields: sanitize
    /// each text field in place (numeric characters only, no leading
    /// zeros, at most [`FIELD_TEXT_CAP`] characters) and re-parse it
    /// into its numeric field, substituting zero for malformed text.
    pub fn refresh_numeric_fields(&mut self)
        ensures
            final(self).s_str@ == sanitize_spec(old(self).s_str@, FIELD_TEXT_CAP as nat),
            final(self).ms_str@ == sanitize_spec(old(self).ms_str@, FIELD_TEXT_CAP as nat),
            final(self).hold_s_str@ == sanitize_spec(old(self).hold_s_str@, FIELD_TEXT_CAP as nat),
            final(self).hold_ms_str@ == sanitize_spec(
                old(self).hold_ms_str@,
                FIELD_TEXT_CAP as nat,
            ),
            final(self).s as int == parse_or_zero(final(self).s_str@),
            final(self).ms as int == parse_or_zero(final(self).ms_str@),
            final(self).hold_s as int == parse_or_zero(final(self).hold_s_str@),
            final(self).hold_ms as int == parse_or_zero(final(self).hold_ms_str@),
            final(self).running == old(self).running,
            final(self).mode == old(self).mode,
            final(self).key_press_type == old(self).key_press_type,
            final(self).click_type == old(self).click_type,
            final(self).hold == old(self).hold,
            final(self).hotkey == old(self).hotkey,
            final(self).hotkey_pressed == old(self).hotkey_pressed,
    {
        sanitize_string(&mut self.s_str, FIELD_TEXT_CAP);
        sanitize_string(&mut self.ms_str, FIELD_TEXT_CAP);
        sanitize_string(&mut self.hold_s_str, FIELD_TEXT_CAP);
        sanitize_string(&mut self.hold_ms_str, FIELD_TEXT_CAP);
        self.s = parse_u32_or_zero(self.s_str.as_str());
        self.ms = parse_u32_or_zero(self.ms_str.as_str());
        self.hold_s = parse_u32_or_zero(self.hold_s_str.as_str());
        self.hold_ms = parse_u32_or_zero(self.hold_ms_str.as_str());
    }
}

} // verus!
