//! Input-to-display selection controller for a small device with four
//! push buttons, a quadrature rotary encoder, and a fixed set of images.
//!
//! The library holds the logic with timing and ordering concerns: the
//! per-button debounce state machine, the dead-band filter over the wrapping
//! encoder count, the wrapping image-selection state, and the per-tick
//! orchestration step that decides which input is serviced and when a render
//! is issued. The surrounding program samples the input lines, performs the
//! timed waits, and drives the display with the indices this library hands
//! out.

use vstd::prelude::*;

pub mod button;
pub mod poller;
pub mod rotary;
pub mod selection;

verus! {

/// Number of images in the asset set; index 0 is the default/idle image.
pub const TOTAL_IMAGES: u8 = 5;

/// Guard interval, in milliseconds, between the first low reading on a button
/// line and the confirming re-sample.
pub const DEBOUNCE_GUARD_MS: u64 = 20;

/// Coarse interval, in milliseconds, at which a held button is re-polled for
/// release.
pub const HOLD_POLL_MS: u64 = 50;

/// Base interval, in milliseconds, between two full input scans when no
/// button owns the loop.
pub const BASE_TICK_MS: u64 = 50;

/// Encoder count changes with magnitude at most this value are absorbed as
/// mechanical jitter and emit no step event.
pub const ROTATION_DEAD_BAND: i64 = 1;

} // verus!
