//! The exact core of a band scanner for RTL-SDR receivers.
//!
//! A scan walks a band in steps of half a bandwidth. At every step it
//! captures a burst of samples, transforms it, and publishes its power
//! spectrum. This crate holds every part of that which can be done in whole
//! numbers, and proves it:
//!
//! - [`sizing`]: how long a capture is;
//! - [`sweep`]: which frequencies a scan tunes;
//! - [`dsp`]: centring a capture and removing its mean, without rounding;
//! - [`iterators`]: the bins of a transform in ascending order of frequency;
//! - [`scanner`]: the scan as a state machine, and [`trace`]: what holds of
//!   every run of it;
//! - [`samples`]: the store of the spectra of one scan;
//! - [`charts`]: fitting a power series to a display.
//!
//! The transform itself, the logarithm of the power, and all traffic with
//! the receiver are left to the caller.

pub mod charts;
pub mod dsp;
pub mod error;
pub mod iterators;
pub mod samples;
pub mod scanner;
pub mod sizing;
pub mod sweep;
pub mod trace;
