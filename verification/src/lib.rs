//! Dictation pipeline core: the rules that take a hotkey gesture from
//! captured audio to delivered text.
//!
//! The functions here are verified against their contracts. The few that
//! are not, because they call into std or another crate where no
//! specification exists, say so in their documentation.
//!
//! The outside world (devices, models, network, clipboard) is driven by the
//! caller: the state machines in this crate decide what is to be done next
//! and are told what came of it. Audio samples are values of a generic type,
//! so that windowing, filtering and sequencing never depend on their numeric
//! representation.

pub mod audio;
pub mod clipboard;
pub mod config;
pub mod hotkey;
pub mod llm;
pub mod orchestrator;
pub mod text;
pub mod transcription;
