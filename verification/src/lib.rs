//! A manual time-accumulation primitive for frame-based update loops.
//!
//! The crate never reads a clock: the owner feeds each time increment to
//! [`Stopwatch::tick`], and the stopwatch accumulates it, saturating at the
//! largest representable duration instead of overflowing. A paused stopwatch
//! accepts ticks but leaves its accumulated time untouched.

pub mod duration;
pub mod stopwatch;

pub use crate::duration::Duration;
pub use crate::stopwatch::Stopwatch;
