//! Properties that relate several functions of the library.

use crate::acrcloud_api::{
    ProviderReply, ReplyBody, RequestModel, completion_of, normalize, recognition_request_of, reply_outcome,
    signature_of,
};
use crate::codec::base64_decoding_of;
use crate::models::{AcrCloudResponse, ErrorModel, ResponseModel, ResultModel, http_status_of};
use vstd::prelude::*;

verus! {

/// Signing is deterministic: the same credentials, data type, signature
/// version and timestamp always give the same signature.
pub proof fn signature_is_deterministic(
    access_key: Seq<char>,
    access_secret: Seq<char>,
    data_type: Seq<char>,
    signature_version: Seq<char>,
    timestamp: Seq<char>,
    other_key: Seq<char>,
    other_secret: Seq<char>,
    other_data_type: Seq<char>,
    other_version: Seq<char>,
    other_timestamp: Seq<char>,
)
    requires
        access_key == other_key,
        access_secret == other_secret,
        data_type == other_data_type,
        signature_version == other_version,
        timestamp == other_timestamp,
    ensures
        signature_of(access_key, access_secret, data_type, signature_version, timestamp)
            == signature_of(other_key, other_secret, other_data_type, other_version, other_timestamp),
{
}

/// Text that is not base64 ends a recognition with `InvalidInput` before any
/// request exists, so nothing is sent to the provider.
pub proof fn non_base64_is_invalid_input(
    host: Seq<char>,
    access_key: Seq<char>,
    access_secret: Seq<char>,
    text: Seq<char>,
    timestamp: nat,
)
    requires
        base64_decoding_of(text) is None,
    ensures
        recognition_request_of(host, access_key, access_secret, text, timestamp) == Err::<
            RequestModel,
            ErrorModel,
        >(ErrorModel::InvalidInput),
        http_status_of(ErrorModel::InvalidInput) == 400,
{
}

/// A successful status with no matches normalizes to `NoMatch`.
pub proof fn empty_matches_are_no_match(resp: ResponseModel)
    requires
        resp.code == 0,
        resp.music.len() == 0,
    ensures
        normalize(resp) == Err::<ResultModel, ErrorModel>(ErrorModel::NoMatch),
{
}

/// A non-zero provider status normalizes to a provider error that carries the
/// provider's code and message unchanged.
pub proof fn provider_error_is_verbatim(resp: ResponseModel)
    requires
        resp.code != 0,
    ensures
        normalize(resp) == Err::<ResultModel, ErrorModel>(
            ErrorModel::ProviderError { code: resp.code, message: resp.msg },
        ),
{
}

/// Where the best match carries a provider id, the song id is that id exactly.
pub proof fn provider_id_is_song_id(resp: ResponseModel, id: Seq<char>)
    requires
        resp.code == 0,
        resp.music.len() > 0,
        resp.music[0].acrid == Some(id),
    ensures
        normalize(resp) is Ok,
        normalize(resp)->Ok_0.song_id == id,
{
}

/// Normalizing the same provider payload twice gives identical outcomes.
pub proof fn normalize_is_idempotent(first: AcrCloudResponse, second: AcrCloudResponse)
    requires
        first@ == second@,
    ensures
        normalize(first@) == normalize(second@),
{
}

/// An answer with a success status and a body that does not parse is a
/// transport error, rendered with HTTP status 500.
pub proof fn malformed_body_is_server_error(status: u16)
    requires
        200 <= status < 300,
    ensures
        completion_of(ProviderReply::Received { status, body: ReplyBody::Malformed }) is Err,
        completion_of(ProviderReply::Received { status, body: ReplyBody::Malformed })->Err_0
            is TransportError,
        http_status_of(
            completion_of(ProviderReply::Received { status, body: ReplyBody::Malformed })->Err_0,
        ) == 500,
{
    assert(reply_outcome(ProviderReply::Received { status, body: ReplyBody::Malformed }) is Err);
}

} // verus!
