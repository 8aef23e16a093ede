//! Core of a cross-platform windowing and input layer.
//!
//! The library normalizes the notification traffic of a desktop compositor
//! into one ordered stream of portable events. It holds the per-window
//! configure/redraw state machine, the keyboard and pointer state machines,
//! the event-loop sweep that coalesces redraws, and the pure translation
//! tables from native key and button codes to the portable vocabulary.
//! The native transport itself (connecting, binding globals, timers, raw
//! protocol dispatch) lives outside the library and hands it plain values.
use vstd::prelude::*;

pub mod event;
pub mod keyboard;
pub mod keymap;
pub mod pointer;
pub mod runloop;
pub mod session;
pub mod trace;
pub mod win32;
pub mod window;

verus! {

/// Largest logical width or height the window machine accepts from a
/// configure proposal; larger values are treated as protocol anomalies.
pub const MAX_DIM: i32 = 65535;

/// Scale factors are carried in 1/120ths, the granularity of the fractional
/// scale protocol; this caps them at 1000x.
pub const MAX_SCALE_120: u32 = 120000;

} // verus!

