use key_dance::acrcloud_api::{
    fallback_song_id, slug_song_id, AcrCloudClient, IdentifyRequest, ProviderReply, ReplyBody,
};
use key_dance::audio::AudioProcessor;
use key_dance::magenta::{generate_staff_notation, transcription_request, Note};
use key_dance::models::{AcrCloudResponse, Artist, Metadata, Music, RecognitionError, Status};
use key_dance::recognition::RecognitionService;
use key_dance::staff_notation::StaffNotationGenerator;
use key_dance::text::{decimal_string, hyphenate, signed_decimal_string};

fn client() -> AcrCloudClient {
    AcrCloudClient::new("identify-eu-west-1.acrcloud.com", "abc_key", "abc_secret")
}

fn music(title: &str, artists: &[&str], score_milli: i32, acrid: Option<&str>) -> Music {
    Music {
        title: title.to_string(),
        artists: artists.iter().map(|a| Artist { name: a.to_string() }).collect(),
        score_milli,
        acrid: acrid.map(|s| s.to_string()),
    }
}

fn response(code: i32, msg: &str, music: Vec<Music>) -> AcrCloudResponse {
    AcrCloudResponse {
        status: Status { code, msg: msg.to_string() },
        metadata: Metadata { music },
    }
}

fn field<'a>(req: &'a IdentifyRequest, name: &str) -> &'a str {
    req.form
        .fields
        .iter()
        .find(|f| f.name == name)
        .map(|f| f.value.as_str())
        .expect("field present")
}

#[test]
fn signature_matches_known_vector() {
    let c = client();
    let sig = c.create_signature("1700000000", "audio", "1");
    assert_eq!(sig, "dXm/RjzByRDIj1UiP8Yy6deAKvQ=");
    assert_eq!(c.create_signature("1700000000", "audio", "1"), sig);
}

#[test]
fn signature_changes_with_timestamp() {
    let c = client();
    assert_ne!(
        c.create_signature("1700000000", "audio", "1"),
        c.create_signature("1700000001", "audio", "1")
    );
}

#[test]
fn identify_request_has_every_field() {
    let c = client();
    let req = c.identify_request(b"RIFF1234", "clip.wav", 1700000000);
    assert_eq!(req.url, "https://identify-eu-west-1.acrcloud.com/v1/identify");
    assert_eq!(req.form.sample.bytes, b"RIFF1234".to_vec());
    assert_eq!(req.form.sample.file_name, "clip.wav");
    assert_eq!(req.form.sample.content_type, "audio/wav");
    let names: Vec<&str> = req.form.fields.iter().map(|f| f.name.as_str()).collect();
    assert_eq!(
        names,
        vec!["access_key", "sample_bytes", "timestamp", "signature", "data_type", "signature_version"]
    );
    assert_eq!(field(&req, "access_key"), "abc_key");
    assert_eq!(field(&req, "sample_bytes"), "8");
    assert_eq!(field(&req, "timestamp"), "1700000000");
    assert_eq!(field(&req, "signature"), "dXm/RjzByRDIj1UiP8Yy6deAKvQ=");
    assert_eq!(field(&req, "data_type"), "audio");
    assert_eq!(field(&req, "signature_version"), "1");
}

#[test]
fn base64_request_decodes_audio() {
    let c = client();
    let req = c.recognize_base64_request("UklGRjEyMzQ=", 1700000000).ok().expect("valid base64");
    assert_eq!(req.form.sample.bytes, b"RIFF1234".to_vec());
    assert_eq!(req.form.sample.file_name, "recorded_audio.wav");
    assert_eq!(field(&req, "sample_bytes"), "8");
}

#[test]
fn non_base64_is_invalid_input() {
    let c = client();
    for text in ["not base64!", "abc$", "UklG RjEy", "é"] {
        match c.recognize_base64_request(text, 1700000000) {
            Err(RecognitionError::InvalidInput) => {}
            _ => panic!("expected InvalidInput for {:?}", text),
        }
    }
    let e = c.recognize_base64_request("%%%", 1).err().expect("invalid");
    assert_eq!(e.http_status(), 400);
    assert_eq!(e.message(), "Failed to decode base64 audio data");
}

#[test]
fn empty_matches_give_no_match() {
    let c = client();
    let r = c.process_response(&response(0, "Success", vec![]));
    match r {
        Err(e) => {
            assert!(matches!(e, RecognitionError::NoMatch));
            assert_eq!(e.http_status(), 404);
            assert_eq!(e.message(), "No music matches found");
        }
        Ok(_) => panic!("expected NoMatch"),
    }
}

#[test]
fn provider_code_gives_provider_error() {
    let c = client();
    let r = c.process_response(&response(3001, "Missing/Invalid Access Key", vec![]));
    match r {
        Err(RecognitionError::ProviderError { code, message }) => {
            assert_eq!(code, 3001);
            assert_eq!(message, "Missing/Invalid Access Key");
        }
        _ => panic!("expected ProviderError"),
    }
    let e = RecognitionError::ProviderError { code: 3001, message: "Missing/Invalid Access Key".to_string() };
    assert_eq!(e.http_status(), 500);
    assert_eq!(e.message(), "ACRCloud error: Missing/Invalid Access Key (code: 3001)");
}

#[test]
fn provider_error_wins_over_matches() {
    let c = client();
    let r = c.process_response(&response(-2, "bad", vec![music("A", &["B"], 1000, None)]));
    match r {
        Err(e) => assert_eq!(e.message(), "ACRCloud error: bad (code: -2)"),
        Ok(_) => panic!("expected ProviderError"),
    }
}

#[test]
fn imagine_match_normalizes() {
    let c = client();
    let r = c
        .process_response(&response(0, "Success", vec![music("Imagine", &["John Lennon"], 82500, None)]))
        .ok()
        .expect("a result");
    assert_eq!(r.title, "Imagine");
    assert_eq!(r.artist, "John Lennon");
    assert_eq!(r.confidence_micro, 825000);
    assert_eq!(r.song_id, "imagine-john-lennon");
}

#[test]
fn provider_id_is_kept() {
    let c = client();
    let r = c
        .process_response(&response(0, "Success", vec![music("Imagine", &["John Lennon"], 82500, Some("abc123"))]))
        .ok()
        .expect("a result");
    assert_eq!(r.song_id, "abc123");
}

#[test]
fn only_first_match_and_first_artist_count() {
    let c = client();
    let r = c
        .process_response(&response(
            0,
            "Success",
            vec![music("Let It Be", &["The Beatles", "Paul McCartney"], 100000, None), music("Other", &["X"], 99000, Some("zzz"))],
        ))
        .ok()
        .expect("a result");
    assert_eq!(r.artist, "The Beatles");
    assert_eq!(r.song_id, "let-it-be-the-beatles");
    assert_eq!(r.confidence_micro, 1000000);
}

#[test]
fn missing_artist_is_unknown() {
    let c = client();
    let r = c
        .process_response(&response(0, "Success", vec![music("Silence", &[], 0, None)]))
        .ok()
        .expect("a result");
    assert_eq!(r.artist, "Unknown");
    assert_eq!(r.song_id, "silence-unknown");
    assert_eq!(r.confidence_micro, 0);
}

#[test]
fn normalization_is_idempotent() {
    let c = client();
    let payload = response(0, "Success", vec![music("Imagine", &["John Lennon"], 82500, None)]);
    let a = c.process_response(&payload).ok().expect("a result");
    let b = c.process_response(&payload).ok().expect("a result");
    assert_eq!(a.title, b.title);
    assert_eq!(a.artist, b.artist);
    assert_eq!(a.confidence_micro, b.confidence_micro);
    assert_eq!(a.song_id, b.song_id);
}

#[test]
fn malformed_body_is_transport_error() {
    let c = client();
    let r = c.complete_recognition(ProviderReply::Received { status: 200, body: ReplyBody::Malformed });
    match r {
        Err(e) => {
            assert!(matches!(e, RecognitionError::TransportError { .. }));
            assert_eq!(e.http_status(), 500);
            assert_eq!(e.message(), "Failed to parse response");
        }
        Ok(_) => panic!("expected TransportError"),
    }
}

#[test]
fn failure_status_is_transport_error() {
    let c = client();
    let body = ReplyBody::Parsed(response(0, "Success", vec![]));
    match c.complete_recognition(ProviderReply::Received { status: 503, body }) {
        Err(e) => assert_eq!(e.message(), "Request failed with status: 503"),
        Ok(_) => panic!("expected TransportError"),
    }
}

#[test]
fn send_and_read_failures_are_transport_errors() {
    let c = client();
    match c.complete_recognition(ProviderReply::SendFailed { detail: "timed out".to_string() }) {
        Err(e) => {
            assert_eq!(e.message(), "Request failed: timed out");
            assert_eq!(e.http_status(), 500);
        }
        Ok(_) => panic!("expected TransportError"),
    }
    let body = ReplyBody::Unreadable { detail: "eof".to_string() };
    match c.complete_recognition(ProviderReply::Received { status: 200, body }) {
        Err(e) => assert_eq!(e.message(), "Failed to read response: eof"),
        Ok(_) => panic!("expected TransportError"),
    }
}

#[test]
fn parsed_reply_is_normalized() {
    let c = client();
    let body = ReplyBody::Parsed(response(0, "Success", vec![music("Imagine", &["John Lennon"], 82500, None)]));
    let r = c.complete_recognition(ProviderReply::Received { status: 200, body }).ok().expect("a result");
    assert_eq!(r.song_id, "imagine-john-lennon");
}

#[test]
fn settings_must_all_be_present() {
    let ok = AcrCloudClient::from_settings(Some("h".to_string()), Some("k".to_string()), Some("s".to_string()));
    assert!(ok.is_ok());
    let e = AcrCloudClient::from_settings(None, Some("k".to_string()), Some("s".to_string())).err().unwrap();
    assert_eq!(e, "ACRCLOUD_HOST must be set in .env file");
    let e = AcrCloudClient::from_settings(Some("h".to_string()), Some(String::new()), Some("s".to_string())).err().unwrap();
    assert_eq!(e, "ACRCLOUD_ACCESS_KEY must be set in .env file");
    let e = AcrCloudClient::from_settings(Some("h".to_string()), Some("k".to_string()), None).err().unwrap();
    assert_eq!(e, "ACRCLOUD_ACCESS_SECRET must be set in .env file");
}

#[test]
fn slug_helpers() {
    assert_eq!(slug_song_id("hey jude", "the beatles"), "hey-jude-the-beatles");
    assert_eq!(fallback_song_id("Hey Jude", "The BEATLES"), "hey-jude-the-beatles");
    assert_eq!(fallback_song_id("ÉTÉ", "A"), "été-a");
    assert_eq!(hyphenate("a b  c"), "a-b--c");
    assert_eq!(hyphenate(""), "");
}

#[test]
fn decimal_rendering() {
    assert_eq!(decimal_string(0), "0");
    assert_eq!(decimal_string(1234567890), "1234567890");
    assert_eq!(decimal_string(u64::MAX), "18446744073709551615");
    assert_eq!(signed_decimal_string(-45), "-45");
    assert_eq!(signed_decimal_string(i64::MIN), "-9223372036854775808");
}

#[test]
fn placeholder_components() {
    let p = AudioProcessor::new();
    assert_eq!(p.process_audio(&[1, 2, 3]), vec![1, 2, 3]);
    let g = StaffNotationGenerator::new();
    let n = g.generate_for_song("abc123");
    assert_eq!(n.title, "Example Staff Notation");
    assert_eq!(n.notation, "C4 D4 E4 F4 | G4 A4 B4 C5 | C5 B4 A4 G4 | F4 E4 D4 C4");
    let s = RecognitionService::new();
    let r = s.recognize_audio(&[]).ok().unwrap();
    assert_eq!(r.song_id, "example_id");
    assert_eq!(r.confidence_micro, 950000);
    assert_eq!(s.get_staff_notation("x").ok().unwrap(), "Example staff notation data");
    let notes = [Note { pitch: 60, start_ms: 0, end_ms: 500, velocity: 80 }];
    assert_eq!(generate_staff_notation(&notes), "Generated staff notation");
    assert_eq!(transcription_request(b"RIFF1234").audio_data, "UklGRjEyMzQ=");
}
