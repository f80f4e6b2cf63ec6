//! The request to a transcription service and the notes it returns.

use crate::codec::{base64_encode, base64_encoding_of};
use vstd::prelude::*;
use vstd::string::*;

verus! {

/// A transcription request: the audio in base64.
pub struct MagentaRequest {
    pub audio_data: String,
}

/// One transcribed note; times are in milliseconds from the start.
pub struct Note {
    pub pitch: u8,
    pub start_ms: u32,
    pub end_ms: u32,
    pub velocity: u8,
}

/// The notes a transcription returns.
pub struct MagentaResponse {
    pub notes: Vec<Note>,
}

/// The transcription request for `audio_data`.
pub fn transcription_request(audio_data: &[u8]) -> (r: MagentaRequest)
    ensures
        r.audio_data@ == base64_encoding_of(audio_data@),
{
    MagentaRequest { audio_data: base64_encode(audio_data) }
}

/// The staff notation of transcribed notes: a fixed text for every input.
pub fn generate_staff_notation(notes: &[Note]) -> (r: String)
    ensures
        r@ == "Generated staff notation"@,
{
    String::from_str("Generated staff notation")
}

} // verus!
