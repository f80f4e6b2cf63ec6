//! The provider's reply, the recognition result and the error kinds, each with
//! its mathematical model.

use crate::text::{signed_decimal_of, signed_decimal_string};
use vstd::prelude::*;
use vstd::string::*;

verus! {

/// The provider's status block: `code` is zero on success.
pub struct Status {
    pub code: i32,
    pub msg: String,
}

/// One artist credited on a match.
pub struct Artist {
    pub name: String,
}

/// One candidate song. `score_milli` is the provider's 0..100 score in
/// thousandths of a point (82.5 is 82500).
pub struct Music {
    pub title: String,
    pub artists: Vec<Artist>,
    pub score_milli: i32,
    pub acrid: Option<String>,
}

/// The candidates of a reply, best first.
pub struct Metadata {
    pub music: Vec<Music>,
}

/// A reply of the provider's identify endpoint.
pub struct AcrCloudResponse {
    pub status: Status,
    pub metadata: Metadata,
}

/// A recognized song. `confidence_micro` is the confidence in millionths
/// (0.825 is 825000).
pub struct MusicRecognitionResult {
    pub title: String,
    pub artist: String,
    pub confidence_micro: i64,
    pub song_id: String,
}

/// The body of a recognition request: base64 audio.
pub struct AudioData {
    pub data: String,
}

/// A notated-music rendering of a song.
pub struct StaffNotation {
    pub title: String,
    pub notation: String,
}

/// Why a recognition gave no result.
pub enum RecognitionError {
    /// The audio was not valid base64.
    InvalidInput,
    /// The provider understood the request and found no song.
    NoMatch,
    /// The provider rejected or failed the request.
    ProviderError { code: i32, message: String },
    /// The provider could not be reached, answered with a failure status, or
    /// sent a body that could not be read or parsed.
    TransportError { message: String },
}

/// Model of a match.
pub struct MusicModel {
    pub title: Seq<char>,
    pub artists: Seq<Seq<char>>,
    pub score_milli: int,
    pub acrid: Option<Seq<char>>,
}

/// Model of a provider reply.
pub struct ResponseModel {
    pub code: int,
    pub msg: Seq<char>,
    pub music: Seq<MusicModel>,
}

/// Model of a recognition result.
pub struct ResultModel {
    pub title: Seq<char>,
    pub artist: Seq<char>,
    pub confidence_micro: int,
    pub song_id: Seq<char>,
}

/// Model of a recognition error.
pub enum ErrorModel {
    InvalidInput,
    NoMatch,
    ProviderError { code: int, message: Seq<char> },
    TransportError { message: Seq<char> },
}

impl View for Artist {
    type V = Seq<char>;

    open spec fn view(&self) -> Seq<char> {
        self.name@
    }
}

impl View for Music {
    type V = MusicModel;

    open spec fn view(&self) -> MusicModel {
        MusicModel {
            title: self.title@,
            artists: self.artists@.map_values(|a: Artist| a@),
            score_milli: self.score_milli as int,
            acrid: match self.acrid {
                Some(id) => Some(id@),
                None => None,
            },
        }
    }
}

impl View for AcrCloudResponse {
    type V = ResponseModel;

    open spec fn view(&self) -> ResponseModel {
        ResponseModel {
            code: self.status.code as int,
            msg: self.status.msg@,
            music: self.metadata.music@.map_values(|m: Music| m@),
        }
    }
}

impl View for MusicRecognitionResult {
    type V = ResultModel;

    open spec fn view(&self) -> ResultModel {
        ResultModel {
            title: self.title@,
            artist: self.artist@,
            confidence_micro: self.confidence_micro as int,
            song_id: self.song_id@,
        }
    }
}

impl View for RecognitionError {
    type V = ErrorModel;

    open spec fn view(&self) -> ErrorModel {
        match self {
            RecognitionError::InvalidInput => ErrorModel::InvalidInput,
            RecognitionError::NoMatch => ErrorModel::NoMatch,
            RecognitionError::ProviderError { code, message } => ErrorModel::ProviderError {
                code: *code as int,
                message: message@,
            },
            RecognitionError::TransportError { message } => ErrorModel::TransportError {
                message: message@,
            },
        }
    }
}

/// The model of a recognition outcome.
pub open spec fn outcome_view(r: Result<MusicRecognitionResult, RecognitionError>) -> Result<
    ResultModel,
    ErrorModel,
> {
    match r {
        Ok(v) => Ok(v@),
        Err(e) => Err(e@),
    }
}

/// The HTTP status that an error is rendered with.
pub open spec fn http_status_of(e: ErrorModel) -> int {
    match e {
        ErrorModel::InvalidInput => 400,
        ErrorModel::NoMatch => 404,
        ErrorModel::ProviderError { .. } => 500,
        ErrorModel::TransportError { .. } => 500,
    }
}

/// The text an error is rendered with.
pub open spec fn message_of(e: ErrorModel) -> Seq<char> {
    match e {
        ErrorModel::InvalidInput => "Failed to decode base64 audio data"@,
        ErrorModel::NoMatch => "No music matches found"@,
        ErrorModel::ProviderError { code, message } => "ACRCloud error: "@ + message + " (code: "@
            + signed_decimal_of(code) + ")"@,
        ErrorModel::TransportError { message } => message,
    }
}

impl RecognitionError {
    /// The text of the error: the provider's message and code for a provider
    /// error, the transport summary for a transport error.
    pub fn message(&self) -> (r: String)
        ensures
            r@ == message_of(self@),
    {
        match self {
            RecognitionError::InvalidInput => String::from_str("Failed to decode base64 audio data"),
            RecognitionError::NoMatch => String::from_str("No music matches found"),
            RecognitionError::ProviderError { code, message } => {
                let mut r = String::from_str("ACRCloud error: ");
                r.append(message.as_str());
                r.append(" (code: ");
                let digits = signed_decimal_string(*code as i64);
                r.append(digits.as_str());
                r.append(")");
                r
            },
            RecognitionError::TransportError { message } => message.clone(),
        }
    }

    /// The HTTP status of the error: 400 for bad input, 404 for no match and
    /// 500 for provider and transport failures.
    pub fn http_status(&self) -> (r: u16)
        ensures
            r as int == http_status_of(self@),
    {
        match self {
            RecognitionError::InvalidInput => 400,
            RecognitionError::NoMatch => 404,
            RecognitionError::ProviderError { .. } => 500,
            RecognitionError::TransportError { .. } => 500,
        }
    }
}

} // verus!
