//! The fixed timing table of the badge. All times are in milliseconds of
//! uptime unless the name says otherwise.

use vstd::prelude::*;

verus! {

/// Minimum time that must have passed since the last accepted press before
/// a button read is looked at again.
pub const DEBOUNCE_MS: u64 = 250;

/// Pause between two iterations of the active loop.
pub const ACTIVE_TICK_MS: u64 = 1;

/// Pause between two polls of the "on" button while idle.
pub const IDLE_TICK_MS: u64 = 10;

/// Longest silence the watchdog tolerates, in microseconds.
pub const WATCHDOG_TIMEOUT_US: u32 = 3_000_000;

/// Length of one blink cycle: half of it with each colour assignment.
pub const BLINK_PERIOD_MS: u64 = 1000;

/// Length of one fade cycle: red to green and back.
pub const FADE_PERIOD_MS: u64 = 4000;

/// Length of one ramp of the fade, half a fade cycle.
pub const FADE_RAMP_MS: u64 = 2000;

/// The red LED is much brighter than the green one: its intensity is
/// shifted right by this many bits before it becomes a duty cycle.
pub const RED_SHIFT: u16 = 3;

/// What the shift by `RED_SHIFT` divides by.
pub const RED_DIVISOR: u16 = 8;

} // verus!
