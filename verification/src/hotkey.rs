//! Global keyboard shortcuts.

pub mod listener;
