//! Core of a configurable real-time audio pipeline: the chunked audio data
//! model, device descriptors, configuration validation, silence detection,
//! rate/drift compensation, and the control-plane decisions of the capture
//! and playback loops.
//!
//! Device I/O, thread spawning and configuration parsing live outside this
//! library; it works on plain values and hands plain values back.

use vstd::prelude::*;

pub mod audiodevice;
pub mod config;
pub mod rate;
pub mod silence;
pub mod stream;
pub mod text;

verus! {

/// Internal sample representation used for all processing math.
///
/// Samples are fixed-point values: the caller picks one scale (for example
/// one million units per full-scale amplitude) and uses it consistently for
/// waveform data and for level thresholds. The library never interprets the
/// scale; it only compares and copies values in it.
pub type PrcFmt = i64;

} // verus!
