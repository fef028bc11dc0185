//! Audio: capture bookkeeping, windowing and voice-activity filtering.
//!
//! Samples are values of a generic type `T`: the rules here move, pad and
//! select samples and never compute with them.

pub mod recorder;
pub mod segments;
pub mod vad;
pub mod window;
