//! Core logic of a configurable autoclicker.
//!
//! The library models the whole control surface of the tool as plain,
//! verified data and transitions:
//!
//! * [`app`] holds the controller state (configuration fields, the run
//!   flag, the hotkey latch) and its `start` / `stop` / `hotkey_tick`
//!   transitions.
//! * [`schedule`] is the emission loop as a step machine: a driver asks it
//!   what to do next (press, sleep, release, exit) and performs the OS
//!   calls itself.
//! * [`lifecycle`] is the abstract start/stop story: at most one
//!   background loop is ever active.
//! * [`hotkey`] is the edge-triggered toggle discipline for the global
//!   hotkey.
//! * [`utils`] sanitizes and parses the numeric text fields.
//!
//! Everything that touches the OS (event injection, key polling, the GUI)
//! lives outside this crate and drives these functions with plain values.

pub mod app;
pub mod hotkey;
pub mod lifecycle;
pub mod schedule;
pub mod utils;
