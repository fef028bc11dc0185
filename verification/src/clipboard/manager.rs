//! The clipboard handle and the steps of a simulated paste.

use vstd::prelude::*;

verus! {

/// Milliseconds to wait between copying and pasting, so that the clipboard
/// holds the text by the time the keystroke arrives.
pub const PASTE_DELAY_MS: u64 = 50;

/// Handle on the system clipboard.
#[derive(Debug)]
pub struct ClipboardManager;

/// One step of delivering text by a simulated paste.
#[derive(Debug, Clone, Copy, PartialEq, Eq, Structural)]
pub enum PasteStep {
    /// Put the text on the clipboard.
    Copy,
    /// Wait this many milliseconds.
    Wait(u64),
    /// Press and hold the control key.
    PressControl,
    /// Press and release the V key.
    ClickV,
    /// Release the control key.
    ReleaseControl,
}

/// The steps of a simulated paste, in order.
pub open spec fn paste_sequence() -> Seq<PasteStep> {
    seq![
        PasteStep::Copy,
        PasteStep::Wait(PASTE_DELAY_MS),
        PasteStep::PressControl,
        PasteStep::ClickV,
        PasteStep::ReleaseControl,
    ]
}

impl ClipboardManager {
    /// Create a new clipboard manager.
    pub fn new() -> (result: Result<Self, String>)
        ensures
            result is Ok,
    {
        Ok(ClipboardManager)
    }

    /// The steps that copy a text and paste it into the active application.
    pub fn paste_steps(&self) -> (steps: Vec<PasteStep>)
        ensures
            steps@ == paste_sequence(),
    {
        let mut steps: Vec<PasteStep> = Vec::new();
        steps.push(PasteStep::Copy);
        steps.push(PasteStep::Wait(PASTE_DELAY_MS));
        steps.push(PasteStep::PressControl);
        steps.push(PasteStep::ClickV);
        steps.push(PasteStep::ReleaseControl);
        assert(steps@ =~= paste_sequence());
        steps
    }
}

} // verus!
