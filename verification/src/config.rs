//! Application configuration: the settings record and the rules for editing it.

pub mod editing;
pub mod settings;
