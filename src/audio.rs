//! Preparation of raw audio before recognition.

use vstd::prelude::*;
use vstd::slice::slice_to_vec;

verus! {

/// Prepares raw audio for recognition; audio passes through unchanged.
pub struct AudioProcessor;

impl AudioProcessor {
    pub fn new() -> (r: Self) {
        AudioProcessor
    }

    /// The audio to recognize: the input bytes, unchanged.
    pub fn process_audio(&self, audio_data: &[u8]) -> (r: Vec<u8>)
        ensures
            r@ == audio_data@,
    {
        slice_to_vec(audio_data)
    }
}

} // verus!
