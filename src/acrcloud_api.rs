//! The signed identify request and the normalization of the provider's replies.

use crate::codec::{
    base64_decode, base64_decoding_of, base64_encode, base64_encoding_of, hmac_sha1,
    hmac_sha1_of, is_base64_symbol, lowercase_of, to_lowercase,
};
use crate::models::{
    AcrCloudResponse, ErrorModel, Music, MusicModel, MusicRecognitionResult, RecognitionError,
    ResponseModel, ResultModel, outcome_view,
};
use crate::text::{decimal_of, decimal_string, hyphenate, hyphenated};
use vstd::prelude::*;
use vstd::slice::slice_to_vec;
use vstd::string::*;

verus! {

/// The text that the provider expects to be signed, fields in this order, one
/// per line.
pub open spec fn string_to_sign(
    access_key: Seq<char>,
    data_type: Seq<char>,
    signature_version: Seq<char>,
    timestamp: Seq<char>,
) -> Seq<char> {
    "POST\n/v1/identify\n"@ + access_key + "\n"@ + data_type + "\n"@ + signature_version + "\n"@
        + timestamp
}

/// The request signature: the base64 text of the HMAC-SHA1 of the string to
/// sign, keyed by the access secret.
pub open spec fn signature_of(
    access_key: Seq<char>,
    access_secret: Seq<char>,
    data_type: Seq<char>,
    signature_version: Seq<char>,
    timestamp: Seq<char>,
) -> Seq<char> {
    base64_encoding_of(
        hmac_sha1_of(access_secret, string_to_sign(access_key, data_type, signature_version, timestamp)),
    )
}

/// A text field of the identify form.
pub struct FormField {
    pub name: String,
    pub value: String,
}

/// The audio part of the identify form.
pub struct SamplePart {
    pub bytes: Vec<u8>,
    pub file_name: String,
    pub content_type: String,
}

/// The multipart body of an identify request: the audio part and the text
/// fields, in the order they are sent.
pub struct IdentifyForm {
    pub sample: SamplePart,
    pub fields: Vec<FormField>,
}

/// An identify request, ready to be posted.
pub struct IdentifyRequest {
    pub url: String,
    pub form: IdentifyForm,
}

/// Model of an identify form.
pub struct FormModel {
    pub sample: Seq<u8>,
    pub file_name: Seq<char>,
    pub content_type: Seq<char>,
    pub fields: Seq<(Seq<char>, Seq<char>)>,
}

/// Model of an identify request.
pub struct RequestModel {
    pub url: Seq<char>,
    pub form: FormModel,
}

impl View for FormField {
    type V = (Seq<char>, Seq<char>);

    open spec fn view(&self) -> (Seq<char>, Seq<char>) {
        (self.name@, self.value@)
    }
}

impl View for IdentifyForm {
    type V = FormModel;

    open spec fn view(&self) -> FormModel {
        FormModel {
            sample: self.sample.bytes@,
            file_name: self.sample.file_name@,
            content_type: self.sample.content_type@,
            fields: self.fields@.map_values(|f: FormField| f@),
        }
    }
}

impl View for IdentifyRequest {
    type V = RequestModel;

    open spec fn view(&self) -> RequestModel {
        RequestModel { url: self.url@, form: self.form@ }
    }
}

/// The identify form for `audio`: the audio part typed `audio/wav`, then the
/// access key, the audio's length in decimal, the timestamp, the signature,
/// the data type and the signature version.
pub open spec fn form_of(
    access_key: Seq<char>,
    access_secret: Seq<char>,
    audio: Seq<u8>,
    file_name: Seq<char>,
    timestamp: Seq<char>,
    data_type: Seq<char>,
    signature_version: Seq<char>,
) -> FormModel {
    FormModel {
        sample: audio,
        file_name,
        content_type: "audio/wav"@,
        fields: seq![
            ("access_key"@, access_key),
            ("sample_bytes"@, decimal_of(audio.len())),
            ("timestamp"@, timestamp),
            ("signature"@, signature_of(access_key, access_secret, data_type, signature_version, timestamp)),
            ("data_type"@, data_type),
            ("signature_version"@, signature_version),
        ],
    }
}

/// The identify request for `audio` made at `timestamp` (unix seconds).
pub open spec fn request_of(
    host: Seq<char>,
    access_key: Seq<char>,
    access_secret: Seq<char>,
    audio: Seq<u8>,
    file_name: Seq<char>,
    timestamp: nat,
) -> RequestModel {
    RequestModel {
        url: "https://"@ + host + "/v1/identify"@,
        form: form_of(access_key, access_secret, audio, file_name, decimal_of(timestamp), "audio"@, "1"@),
    }
}

/// What a recognition of base64 audio sends: nothing, with `InvalidInput`,
/// where the text is not base64; else the identify request for the decoded
/// audio.
pub open spec fn recognition_request_of(
    host: Seq<char>,
    access_key: Seq<char>,
    access_secret: Seq<char>,
    base64_audio: Seq<char>,
    timestamp: nat,
) -> Result<RequestModel, ErrorModel> {
    match base64_decoding_of(base64_audio) {
        Some(audio) => Ok(request_of(host, access_key, access_secret, audio, "recorded_audio.wav"@, timestamp)),
        None => Err(ErrorModel::InvalidInput),
    }
}

/// The song id derived from a title and an artist: each lower-cased with its
/// spaces turned into hyphens, joined by a hyphen.
pub open spec fn fallback_id_of(title: Seq<char>, artist: Seq<char>) -> Seq<char> {
    hyphenated(lowercase_of(title)) + "-"@ + hyphenated(lowercase_of(artist))
}

/// The artist reported for a match: its first artist, or `Unknown`.
pub open spec fn first_artist_of(m: MusicModel) -> Seq<char> {
    if m.artists.len() > 0 {
        m.artists[0]
    } else {
        "Unknown"@
    }
}

/// The result for a provider reply: the provider's error where its status code
/// is not zero, no match where it lists none, else the first match.
pub open spec fn normalize(resp: ResponseModel) -> Result<ResultModel, ErrorModel> {
    if resp.code != 0 {
        Err(ErrorModel::ProviderError { code: resp.code, message: resp.msg })
    } else if resp.music.len() == 0 {
        Err(ErrorModel::NoMatch)
    } else {
        let m = resp.music[0];
        let artist = first_artist_of(m);
        Ok(
            ResultModel {
                title: m.title,
                artist,
                confidence_micro: 10 * m.score_milli,
                song_id: match m.acrid {
                    Some(id) => id,
                    None => fallback_id_of(m.title, artist),
                },
            },
        )
    }
}

/// The body of an answer of the provider, as far as it could be taken in.
pub enum ReplyBody {
    /// The body could not be read.
    Unreadable { detail: String },
    /// The body was read but is not a provider reply.
    Malformed,
    /// The body parsed as a provider reply.
    Parsed(AcrCloudResponse),
}

/// What came of posting an identify request.
pub enum ProviderReply {
    /// The request could not be sent or no answer came.
    SendFailed { detail: String },
    /// An answer came with this HTTP status.
    Received { status: u16, body: ReplyBody },
}

/// The provider reply carried by an answer, or the transport error it is.
pub open spec fn reply_outcome(reply: ProviderReply) -> Result<ResponseModel, ErrorModel> {
    match reply {
        ProviderReply::SendFailed { detail } => Err(
            ErrorModel::TransportError { message: "Request failed: "@ + detail@ },
        ),
        ProviderReply::Received { status, body } => {
            if !(200 <= status && status < 300) {
                Err(
                    ErrorModel::TransportError {
                        message: "Request failed with status: "@ + decimal_of(status as nat),
                    },
                )
            } else {
                match body {
                    ReplyBody::Unreadable { detail } => Err(
                        ErrorModel::TransportError { message: "Failed to read response: "@ + detail@ },
                    ),
                    ReplyBody::Malformed => Err(
                        ErrorModel::TransportError { message: "Failed to parse response"@ },
                    ),
                    ReplyBody::Parsed(resp) => Ok(resp@),
                }
            }
        },
    }
}

/// The recognition outcome of an answer: its transport error, or the
/// normalization of the reply it carries.
pub open spec fn completion_of(reply: ProviderReply) -> Result<ResultModel, ErrorModel> {
    match reply_outcome(reply) {
        Ok(resp) => normalize(resp),
        Err(e) => Err(e),
    }
}

fn form_field(name: &str, value: String) -> (r: FormField)
    ensures
        r@ == (name@, value@),
{
    FormField { name: String::from_str(name), value }
}

/// Joins two lower-cased names into a song id: spaces become hyphens and a
/// hyphen separates the two.
pub fn slug_song_id(title_lower: &str, artist_lower: &str) -> (r: String)
    ensures
        r@ == hyphenated(title_lower@) + "-"@ + hyphenated(artist_lower@),
{
    let mut r = hyphenate(title_lower);
    r.append("-");
    let artist = hyphenate(artist_lower);
    r.append(artist.as_str());
    r
}

/// The song id used where the provider gives none.
pub fn fallback_song_id(title: &str, artist: &str) -> (r: String)
    ensures
        r@ == fallback_id_of(title@, artist@),
{
    let t = to_lowercase(title);
    let a = to_lowercase(artist);
    slug_song_id(t.as_str(), a.as_str())
}

/// The credentials and endpoint of the provider.
pub struct AcrCloudClient {
    pub host: String,
    pub access_key: String,
    pub access_secret: String,
}

impl AcrCloudClient {
    /// All three credentials are present.
    pub open spec fn wf(&self) -> bool {
        self.host@.len() > 0 && self.access_key@.len() > 0 && self.access_secret@.len() > 0
    }

    /// A client for `host` with the given credentials, none of them empty.
    pub fn new(host: &str, access_key: &str, access_secret: &str) -> (r: Self)
        requires
            host@.len() > 0,
            access_key@.len() > 0,
            access_secret@.len() > 0,
        ensures
            r.wf(),
            r.host@ == host@,
            r.access_key@ == access_key@,
            r.access_secret@ == access_secret@,
    {
        AcrCloudClient {
            host: String::from_str(host),
            access_key: String::from_str(access_key),
            access_secret: String::from_str(access_secret),
        }
    }

    /// Builds the client from configured values; a value that is missing or
    /// empty fails the construction, naming the first such setting.
    pub fn from_settings(
        host: Option<String>,
        access_key: Option<String>,
        access_secret: Option<String>,
    ) -> (r: Result<Self, String>)
        ensures
            r is Ok <==> (host is Some && host->0@.len() > 0 && access_key is Some
                && access_key->0@.len() > 0 && access_secret is Some && access_secret->0@.len()
                > 0),
            r is Ok ==> r->Ok_0.wf() && r->Ok_0.host@ == host->0@ && r->Ok_0.access_key@
                == access_key->0@ && r->Ok_0.access_secret@ == access_secret->0@,
            !(host is Some && host->0@.len() > 0) ==> r is Err && r->Err_0@
                == "ACRCLOUD_HOST must be set in .env file"@,
            (host is Some && host->0@.len() > 0) && !(access_key is Some && access_key->0@.len()
                > 0) ==> r is Err && r->Err_0@ == "ACRCLOUD_ACCESS_KEY must be set in .env file"@,
            (host is Some && host->0@.len() > 0) && (access_key is Some && access_key->0@.len()
                > 0) && !(access_secret is Some && access_secret->0@.len() > 0) ==> r is Err
                && r->Err_0@ == "ACRCLOUD_ACCESS_SECRET must be set in .env file"@,
    {
        let host = match host {
            Some(h) if h.as_str().unicode_len() > 0 => h,
            _ => return Err(String::from_str("ACRCLOUD_HOST must be set in .env file")),
        };
        let access_key = match access_key {
            Some(k) if k.as_str().unicode_len() > 0 => k,
            _ => return Err(String::from_str("ACRCLOUD_ACCESS_KEY must be set in .env file")),
        };
        let access_secret = match access_secret {
            Some(s) if s.as_str().unicode_len() > 0 => s,
            _ => return Err(String::from_str("ACRCLOUD_ACCESS_SECRET must be set in .env file")),
        };
        Ok(AcrCloudClient { host, access_key, access_secret })
    }

    /// Signs a request made at `timestamp` (unix seconds, in decimal).
    pub fn create_signature(&self, timestamp: &str, data_type: &str, signature_version: &str) -> (r:
        String)
        ensures
            r@ == signature_of(
                self.access_key@,
                self.access_secret@,
                data_type@,
                signature_version@,
                timestamp@,
            ),
    {
        let mut text = String::from_str("POST\n/v1/identify\n");
        text.append(self.access_key.as_str());
        text.append("\n");
        text.append(data_type);
        text.append("\n");
        text.append(signature_version);
        text.append("\n");
        text.append(timestamp);
        let digest = hmac_sha1(self.access_secret.as_str(), text.as_str());
        base64_encode(digest.as_slice())
    }

    /// The multipart body of an identify request for `audio_bytes`.
    pub fn create_identify_form(
        &self,
        audio_bytes: &[u8],
        filename: &str,
        timestamp: &str,
        data_type: &str,
        signature_version: &str,
    ) -> (r: IdentifyForm)
        ensures
            r@ == form_of(
                self.access_key@,
                self.access_secret@,
                audio_bytes@,
                filename@,
                timestamp@,
                data_type@,
                signature_version@,
            ),
    {
        let signature = self.create_signature(timestamp, data_type, signature_version);
        let sample = SamplePart {
            bytes: slice_to_vec(audio_bytes),
            file_name: String::from_str(filename),
            content_type: String::from_str("audio/wav"),
        };
        let mut fields: Vec<FormField> = Vec::new();
        fields.push(form_field("access_key", self.access_key.clone()));
        fields.push(form_field("sample_bytes", decimal_string(audio_bytes.len() as u64)));
        fields.push(form_field("timestamp", String::from_str(timestamp)));
        fields.push(form_field("signature", signature));
        fields.push(form_field("data_type", String::from_str(data_type)));
        fields.push(form_field("signature_version", String::from_str(signature_version)));
        let r = IdentifyForm { sample, fields };
        assert(r@.fields =~= form_of(
            self.access_key@,
            self.access_secret@,
            audio_bytes@,
            filename@,
            timestamp@,
            data_type@,
            signature_version@,
        ).fields);
        r
    }

    /// The identify request for `audio_bytes`, made at `timestamp_secs` (unix
    /// seconds): audio data, signature version 1.
    pub fn identify_request(&self, audio_bytes: &[u8], filename: &str, timestamp_secs: u64) -> (r:
        IdentifyRequest)
        ensures
            r@ == request_of(
                self.host@,
                self.access_key@,
                self.access_secret@,
                audio_bytes@,
                filename@,
                timestamp_secs as nat,
            ),
    {
        let timestamp = decimal_string(timestamp_secs);
        let form = self.create_identify_form(audio_bytes, filename, timestamp.as_str(), "audio", "1");
        let mut url = String::from_str("https://");
        url.append(self.host.as_str());
        url.append("/v1/identify");
        IdentifyRequest { url, form }
    }

    /// Decodes standard base64 audio.
    pub fn decode_base64(&self, base64_data: &str) -> (r: Result<Vec<u8>, RecognitionError>)
        ensures
            match r {
                Ok(bytes) => base64_decoding_of(base64_data@) == Some(bytes@),
                Err(e) => base64_decoding_of(base64_data@) is None && e@ == ErrorModel::InvalidInput,
            },
            (exists|i: int|
                0 <= i < base64_data@.len() && !is_base64_symbol(#[trigger] base64_data@[i]))
                ==> r is Err,
    {
        match base64_decode(base64_data) {
            Some(bytes) => Ok(bytes),
            None => Err(RecognitionError::InvalidInput),
        }
    }

    /// The identify request for base64 audio, or `InvalidInput` (and no
    /// request) where the text is not base64.
    pub fn recognize_base64_request(&self, base64_data: &str, timestamp_secs: u64) -> (r: Result<
        IdentifyRequest,
        RecognitionError,
    >)
        ensures
            match r {
                Ok(req) => recognition_request_of(
                    self.host@,
                    self.access_key@,
                    self.access_secret@,
                    base64_data@,
                    timestamp_secs as nat,
                ) == Ok::<RequestModel, ErrorModel>(req@),
                Err(e) => recognition_request_of(
                    self.host@,
                    self.access_key@,
                    self.access_secret@,
                    base64_data@,
                    timestamp_secs as nat,
                ) == Err::<RequestModel, ErrorModel>(e@),
            },
            (exists|i: int|
                0 <= i < base64_data@.len() && !is_base64_symbol(#[trigger] base64_data@[i]))
                ==> r is Err && r->Err_0@ == ErrorModel::InvalidInput,
    {
        let decoded = self.decode_base64(base64_data)?;
        Ok(self.identify_request(decoded.as_slice(), "recorded_audio.wav", timestamp_secs))
    }

    /// Normalizes a provider reply into a result or an error.
    pub fn process_response(&self, response: &AcrCloudResponse) -> (r: Result<
        MusicRecognitionResult,
        RecognitionError,
    >)
        ensures
            outcome_view(r) == normalize(response@),
    {
        if response.status.code != 0 {
            return Err(
                RecognitionError::ProviderError {
                    code: response.status.code,
                    message: response.status.msg.clone(),
                },
            );
        }
        if response.metadata.music.len() == 0 {
            return Err(RecognitionError::NoMatch);
        }
        let music: &Music = &response.metadata.music[0];
        proof {
            assert(music@ == response@.music[0]);
        }
        let artist = if music.artists.len() > 0 {
            music.artists[0].name.clone()
        } else {
            String::from_str("Unknown")
        };
        proof {
            if music.artists.len() > 0 {
                assert(music@.artists[0] == music.artists@[0]@);
            }
        }
        let song_id = match &music.acrid {
            Some(id) => id.clone(),
            None => fallback_song_id(music.title.as_str(), artist.as_str()),
        };
        Ok(
            MusicRecognitionResult {
                title: music.title.clone(),
                artist,
                confidence_micro: 10 * (music.score_milli as i64),
                song_id,
            },
        )
    }

    /// Takes in an answer of the provider: its reply, or the transport error it
    /// is.
    pub fn accept_reply(reply: ProviderReply) -> (r: Result<AcrCloudResponse, RecognitionError>)
        ensures
            match r {
                Ok(resp) => reply_outcome(reply) == Ok::<ResponseModel, ErrorModel>(resp@),
                Err(e) => reply_outcome(reply) == Err::<ResponseModel, ErrorModel>(e@),
            },
    {
        match reply {
            ProviderReply::SendFailed { detail } => {
                let mut message = String::from_str("Request failed: ");
                message.append(detail.as_str());
                Err(RecognitionError::TransportError { message })
            },
            ProviderReply::Received { status, body } => {
                if !(200 <= status && status < 300) {
                    let mut message = String::from_str("Request failed with status: ");
                    let code = decimal_string(status as u64);
                    message.append(code.as_str());
                    return Err(RecognitionError::TransportError { message });
                }
                match body {
                    ReplyBody::Unreadable { detail } => {
                        let mut message = String::from_str("Failed to read response: ");
                        message.append(detail.as_str());
                        Err(RecognitionError::TransportError { message })
                    },
                    ReplyBody::Malformed => Err(
                        RecognitionError::TransportError {
                            message: String::from_str("Failed to parse response"),
                        },
                    ),
                    ReplyBody::Parsed(resp) => Ok(resp),
                }
            },
        }
    }

    /// Finishes a recognition from the provider's answer.
    pub fn complete_recognition(&self, reply: ProviderReply) -> (r: Result<
        MusicRecognitionResult,
        RecognitionError,
    >)
        ensures
            outcome_view(r) == completion_of(reply),
    {
        let response = AcrCloudClient::accept_reply(reply)?;
        self.process_response(&response)
    }
}

} // verus!
