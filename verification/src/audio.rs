//! The silent audio backend, used when no audio device is available.

use vstd::prelude::*;

verus! {

/// Null backend: drops every operation silently.
pub struct NullAudioEngine;

impl Default for NullAudioEngine {
    fn default() -> (r: NullAudioEngine)
        ensures
            r == NullAudioEngine,
    {
        NullAudioEngine
    }
}

impl NullAudioEngine {
    /// The null backend never has a device to play on.
    pub fn is_available(&self) -> (r: bool)
        ensures
            !r,
    {
        false
    }
}

} // verus!
