//! Core of a small note player: resolving natural-note names (such as `"A4"`)
//! to pitches, and generating the sample stream of a pure sine tone.
//!
//! Pitch resolution yields the note's distance in semitones from the
//! reference pitch A4 (440 Hz); the frequency in Hz is `440 * 2^(n / 12)`,
//! which the caller computes in floating point. Tone generation is the
//! sample-accurate counter machine behind the stream: it yields the index of
//! each successive sample, and the caller turns an index into an amplitude.

pub mod pitch;
pub mod tone;
