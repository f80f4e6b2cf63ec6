//! A stand-in recognition service that answers every request the same way.

use vstd::prelude::*;
use vstd::string::*;

verus! {

/// The result of the stand-in service; `confidence_micro` is in millionths.
pub struct RecognitionResult {
    pub song_id: String,
    pub title: String,
    pub artist: String,
    pub confidence_micro: i64,
}

/// A recognition service that answers every request with the same song.
pub struct RecognitionService {}

impl RecognitionService {
    pub fn new() -> (r: Self) {
        RecognitionService {  }
    }

    /// Recognizes audio: always the example song, with confidence 0.95.
    pub fn recognize_audio(&self, audio_data: &[u8]) -> (r: Result<RecognitionResult, String>)
        ensures
            r is Ok,
            r->Ok_0.song_id@ == "example_id"@,
            r->Ok_0.title@ == "Example Song"@,
            r->Ok_0.artist@ == "Example Artist"@,
            r->Ok_0.confidence_micro == 950000,
    {
        Ok(
            RecognitionResult {
                song_id: String::from_str("example_id"),
                title: String::from_str("Example Song"),
                artist: String::from_str("Example Artist"),
                confidence_micro: 950000,
            },
        )
    }

    /// The staff notation of a song: always the example text.
    pub fn get_staff_notation(&self, song_id: &str) -> (r: Result<String, String>)
        ensures
            r is Ok,
            r->Ok_0@ == "Example staff notation data"@,
    {
        Ok(String::from_str("Example staff notation data"))
    }
}

} // verus!
