//! The model sizes that can be selected.

use vstd::prelude::*;

verus! {

/// Where a model file comes from and how large it is.
#[derive(Debug)]
pub struct ModelInfo {
    pub name: String,
    /// Size of the file in bytes.
    pub size: u64,
    pub url: String,
}

impl Clone for ModelInfo {
    fn clone(&self) -> (copy: Self)
        ensures
            copy == *self,
    {
        ModelInfo { name: self.name.clone(), size: self.size, url: self.url.clone() }
    }
}

/// The sizes a transcription model comes in.
#[derive(Debug, Clone, Copy, PartialEq, Eq, Structural)]
pub enum TranscriptionModel {
    Tiny,
    Base,
    Small,
    Medium,
    Large,
}

} // verus!
