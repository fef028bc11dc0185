//! Which shortcut is registered for recording, and which key an incoming
//! shortcut stands for.

use vstd::prelude::*;
use crate::orchestrator::Key;
use crate::text::same_text;

verus! {

/// Handle on the global shortcuts of a session.
#[derive(Debug)]
pub struct HotkeyListener;

/// The shortcut registered when the configured one cannot be parsed.
pub open spec fn fallback_shortcut() -> Seq<char> {
    "Ctrl+Alt+R"@
}

impl HotkeyListener {
    /// Create a new hotkey listener.
    pub fn new() -> (result: Result<Self, String>)
        ensures
            result is Ok,
    {
        Ok(HotkeyListener)
    }

    /// The text of the shortcut to register for recording: the configured
    /// one where it parses, the fallback otherwise.
    pub fn record_shortcut(configured: &str, parses: bool) -> (shortcut: String)
        ensures
            shortcut@ == if parses {
                configured@
            } else {
                fallback_shortcut()
            },
    {
        if parses {
            configured.to_owned()
        } else {
            "Ctrl+Alt+R".to_owned()
        }
    }

    /// The key that an incoming shortcut stands for: the cancel key where
    /// its text is the configured cancel key's, the record key otherwise.
    pub fn key_for(shortcut: &str, cancel_key: &str) -> (key: Key)
        ensures
            key == if shortcut@ == cancel_key@ {
                Key::Cancel
            } else {
                Key::Record
            },
    {
        if same_text(shortcut, cancel_key) {
            Key::Cancel
        } else {
            Key::Record
        }
    }
}

} // verus!
