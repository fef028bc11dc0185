//! Speech-to-text: the worker's lifecycle and the parameters of one inference.

use vstd::prelude::*;

pub mod models;
pub mod whisper;
pub mod worker;

verus! {

/// Sample rate that transcription expects, in hertz.
pub const SAMPLE_RATE: u32 = 16000;

/// Result of a transcription operation.
#[derive(Debug)]
pub struct TranscriptionResult {
    pub text: String,
    pub language: Option<String>,
}

impl Clone for TranscriptionResult {
    fn clone(&self) -> (copy: Self)
        ensures
            copy == *self,
    {
        let language = match &self.language {
            Some(code) => Some(code.clone()),
            None => None,
        };
        TranscriptionResult { text: self.text.clone(), language }
    }
}

/// Why a transcription request produced no text.
#[derive(Debug, Clone, Copy, PartialEq, Eq, Structural)]
pub enum TranscribeError {
    /// The buffer held no samples.
    EmptyAudio,
    /// The model could not be loaded from its configured path.
    ModelLoadFailed,
    /// The model was loaded but inference failed.
    InferenceFailed,
}

/// Why a model reload left the worker without a model.
#[derive(Debug, Clone, Copy, PartialEq, Eq, Structural)]
pub enum ReloadError {
    ReloadFailed,
}

} // verus!
