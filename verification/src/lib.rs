//! Verified core of a MIDI playback demo: the integer arithmetic of the
//! audio render adapter (saturating conversion of scaled samples to 16-bit,
//! interleaving a stereo block) and of the waveform relay (decimating a
//! rendered block down to a fixed-length visualization snapshot).
//!
//! Synthesis, audio output and rendering are done by outside libraries; the
//! unverified program around this crate scales float samples to integers,
//! hands them here, and draws the snapshot.

pub mod samples;
pub mod waveform;
