//! Delivery of text through the clipboard.

pub mod manager;
