use verbalix::error::VerbalixError;
use verbalix::live::{LiveSessionId, SegmentId};
use verbalix::voice_stream::{
    enrollment_status_error, interpret_error, interpret_request_id, parse_u32, parse_vlbx_preamble,
    split_pcm_with_remainder,
};
use verbalix::voice_stream::voice_status_answer;
use verbalix::live::{SegmentResult, StageDurations};
use verbalix::voice_stream::{interpret_outcome, InterpretAnswer};
use verbalix::voice_stream::{header_ms, header_or, interpret_url, wav_base64};
use verbalix::voice_stream::PreambleReader;

fn make_vlbx_frame(source_text: &str, pcm_bytes: &[u8]) -> Vec<u8> {
    let json = format!(r#"{{"sourceText":"{}"}}"#, source_text);
    let json_bytes = json.as_bytes();
    let json_len = json_bytes.len() as u32;
    let mut frame = Vec::new();
    frame.extend_from_slice(b"VLBX");
    frame.extend_from_slice(&json_len.to_be_bytes());
    frame.extend_from_slice(json_bytes);
    frame.extend_from_slice(pcm_bytes);
    frame
}

fn as_f32(sample: i16) -> f32 {
    sample as f32 / 32768.0
}

#[test]
fn parse_vlbx_preamble_valid_frame() {
    let frame = make_vlbx_frame("hello", &[]);
    let result = parse_vlbx_preamble(&frame);
    assert!(result.is_some());
    let (header_len, source_text) = result.unwrap();
    assert_eq!(source_text, "hello");
    assert_eq!(header_len, 8 + r#"{"sourceText":"hello"}"#.len());
}

#[test]
fn parse_vlbx_preamble_invalid_magic() {
    let mut frame = make_vlbx_frame("x", &[]);
    frame[0] = 0x00;
    assert!(parse_vlbx_preamble(&frame).is_none());
}

#[test]
fn parse_vlbx_preamble_reads_u32_be_correctly() {
    let json = r#"{"sourceText":"ab"}"#;
    let json_bytes = json.as_bytes();
    let json_len = json_bytes.len() as u32;

    let mut frame = Vec::new();
    frame.extend_from_slice(b"VLBX");
    frame.extend_from_slice(&json_len.to_be_bytes());
    frame.extend_from_slice(json_bytes);

    let result = parse_vlbx_preamble(&frame);
    assert!(result.is_some());
    let (header_len, source_text) = result.unwrap();
    assert_eq!(source_text, "ab");
    assert_eq!(header_len, 8 + json_bytes.len());
}

#[test]
fn parse_vlbx_preamble_incomplete_returns_none() {
    let frame = make_vlbx_frame("test", &[]);
    assert!(parse_vlbx_preamble(&frame[..4]).is_none());
    assert!(parse_vlbx_preamble(&frame[..7]).is_none());
}

#[test]
fn parse_vlbx_preamble_embedded_pcm_extracts_initial_pcm() {
    let pcm_sample: i16 = 3000;
    let pcm_bytes = pcm_sample.to_le_bytes();
    let frame = make_vlbx_frame("world", &pcm_bytes);
    let result = parse_vlbx_preamble(&frame);
    assert!(result.is_some());
    let (header_len, source_text) = result.unwrap();
    assert_eq!(source_text, "world");
    let initial_pcm = &frame[header_len..];
    assert_eq!(initial_pcm, pcm_bytes.as_slice());
    let mut rem: Option<u8> = None;
    let samples = split_pcm_with_remainder(initial_pcm, &mut rem);
    assert_eq!(samples.len(), 1);
    assert!((as_f32(samples[0]) - 3000.0 / 32768.0).abs() < 1e-4);
}

#[test]
fn parse_vlbx_preamble_invalid_magic_second_byte() {
    let mut frame = make_vlbx_frame("x", &[]);
    frame[1] = 0x00;
    assert!(parse_vlbx_preamble(&frame).is_none());
}

#[test]
fn parse_vlbx_preamble_invalid_magic_third_byte() {
    let mut frame = make_vlbx_frame("x", &[]);
    frame[2] = 0x00;
    assert!(parse_vlbx_preamble(&frame).is_none());
}

#[test]
fn parse_vlbx_preamble_invalid_magic_fourth_byte() {
    let mut frame = make_vlbx_frame("x", &[]);
    frame[3] = 0x00;
    assert!(parse_vlbx_preamble(&frame).is_none());
}

#[test]
fn parse_vlbx_preamble_zero_json_len_returns_empty_source_text() {
    let mut frame = Vec::new();
    frame.extend_from_slice(b"VLBX");
    frame.extend_from_slice(&0u32.to_be_bytes());
    let result = parse_vlbx_preamble(&frame);
    assert!(result.is_some());
    let (header_len, source_text) = result.unwrap();
    assert_eq!(header_len, 8);
    assert_eq!(source_text, "");
}

#[test]
fn parse_vlbx_preamble_accumulation_across_three_tiny_chunks() {
    let json = r#"{"sourceText":"split"}"#;
    let json_bytes = json.as_bytes();
    let json_len = json_bytes.len() as u32;
    let mut full_frame = Vec::new();
    full_frame.extend_from_slice(b"VLBX");
    full_frame.extend_from_slice(&json_len.to_be_bytes());
    full_frame.extend_from_slice(json_bytes);
    let mut buf = Vec::new();
    buf.extend_from_slice(&full_frame[..4]);
    assert!(parse_vlbx_preamble(&buf).is_none());
    buf.extend_from_slice(&full_frame[4..8]);
    assert!(parse_vlbx_preamble(&buf).is_none());
    buf.extend_from_slice(&full_frame[8..]);
    let result = parse_vlbx_preamble(&buf);
    assert!(result.is_some());
    let (header_len, source_text) = result.unwrap();
    assert_eq!(source_text, "split");
    assert_eq!(header_len, 8 + json_bytes.len());
}

#[test]
fn drain_pcm_with_remainder_even_chunk() {
    let mut rem: Option<u8> = None;
    let sample: i16 = 1000;
    let bytes = sample.to_le_bytes();
    let out = split_pcm_with_remainder(&bytes, &mut rem);
    assert_eq!(out.len(), 1);
    assert!((as_f32(out[0]) - 1000.0 / 32768.0).abs() < 1e-4);
    assert!(rem.is_none());
}

#[test]
fn drain_pcm_with_remainder_odd_byte_across_chunks() {
    let s1: i16 = 1000;
    let s2: i16 = -2000;

    let all_bytes: Vec<u8> = s1
        .to_le_bytes()
        .iter()
        .chain(s2.to_le_bytes().iter())
        .copied()
        .collect();

    let chunk_a = &all_bytes[..3];
    let chunk_b = &all_bytes[3..];

    let mut rem: Option<u8> = None;
    let out_a = split_pcm_with_remainder(chunk_a, &mut rem);
    assert_eq!(out_a.len(), 1);
    assert!((as_f32(out_a[0]) - 1000.0 / 32768.0).abs() < 1e-4);
    assert!(rem.is_some(), "odd byte must be buffered");

    let out_b = split_pcm_with_remainder(chunk_b, &mut rem);
    assert_eq!(out_b.len(), 1);
    assert!((as_f32(out_b[0]) + 2000.0 / 32768.0).abs() < 1e-4);
    assert!(rem.is_none());
}

#[test]
fn drain_pcm_with_remainder_odd_byte_three_chunks() {
    let s1: i16 = 100;
    let s2: i16 = 200;
    let s3: i16 = 300;
    let all_bytes: Vec<u8> = s1
        .to_le_bytes()
        .iter()
        .chain(s2.to_le_bytes().iter())
        .chain(s3.to_le_bytes().iter())
        .copied()
        .collect();
    let chunk_a = &all_bytes[..3];
    let chunk_b = &all_bytes[3..5];
    let chunk_c = &all_bytes[5..];
    let mut rem: Option<u8> = None;
    let out_a = split_pcm_with_remainder(chunk_a, &mut rem);
    assert_eq!(out_a.len(), 1);
    assert!((as_f32(out_a[0]) - 100.0 / 32768.0).abs() < 1e-4);
    assert!(rem.is_some());
    let out_b = split_pcm_with_remainder(chunk_b, &mut rem);
    assert_eq!(out_b.len(), 1);
    assert!((as_f32(out_b[0]) - 200.0 / 32768.0).abs() < 1e-4);
    assert!(rem.is_some());
    let out_c = split_pcm_with_remainder(chunk_c, &mut rem);
    assert_eq!(out_c.len(), 1);
    assert!((as_f32(out_c[0]) - 300.0 / 32768.0).abs() < 1e-4);
    assert!(rem.is_none());
}

#[test]
fn preamble_source_text_missing_or_malformed_is_empty() {
    let mut frame = Vec::new();
    let json = br#"{"other":1}"#;
    frame.extend_from_slice(b"VLBX");
    frame.extend_from_slice(&(json.len() as u32).to_be_bytes());
    frame.extend_from_slice(json);
    assert_eq!(parse_vlbx_preamble(&frame), Some((8 + json.len(), String::new())));

    let mut frame = Vec::new();
    frame.extend_from_slice(b"VLBX");
    frame.extend_from_slice(&3u32.to_be_bytes());
    frame.extend_from_slice(b"{{{");
    assert_eq!(parse_vlbx_preamble(&frame), Some((11, String::new())));
}

#[test]
fn negative_samples_and_extremes_decode_exactly() {
    let mut rem = None;
    let bytes = [0x00, 0x80, 0xff, 0x7f, 0xff, 0xff];
    let out = split_pcm_with_remainder(&bytes, &mut rem);
    assert_eq!(out, vec![i16::MIN, i16::MAX, -1]);
    assert!(rem.is_none());
}

#[test]
fn parse_u32_accepts_what_from_str_accepts() {
    assert_eq!(parse_u32("0"), Some(0));
    assert_eq!(parse_u32("+17"), Some(17));
    assert_eq!(parse_u32("4294967295"), Some(u32::MAX));
    assert_eq!(parse_u32("4294967296"), None);
    assert_eq!(parse_u32(""), None);
    assert_eq!(parse_u32("+"), None);
    assert_eq!(parse_u32("-1"), None);
    assert_eq!(parse_u32("12a"), None);
    assert_eq!(parse_u32(" 1"), None);
    assert_eq!(parse_u32("007"), Some(7));
}

#[test]
fn interpret_request_id_joins_session_and_segment() {
    assert_eq!(interpret_request_id(LiveSessionId(42), SegmentId(7)), "42-7");
    assert_eq!(interpret_request_id(LiveSessionId(0), SegmentId(0)), "0-0");
}

#[test]
fn interpret_error_prefers_stage_code_then_status() {
    assert_eq!(interpret_error(Some("STT_FAILED"), 500), VerbalixError::SttFailed);
    assert_eq!(interpret_error(Some("TRANSLATION_FAILED"), 401), VerbalixError::TranslationFailed);
    assert_eq!(interpret_error(Some("TTS_FAILED"), 404), VerbalixError::TtsFailed);
    assert_eq!(interpret_error(Some("OTHER"), 401), VerbalixError::Unauthenticated);
    assert_eq!(interpret_error(None, 403), VerbalixError::Unauthenticated);
    assert_eq!(interpret_error(None, 404), VerbalixError::VoiceProfileMissing);
    assert_eq!(interpret_error(None, 504), VerbalixError::ProviderTimeout);
    assert_eq!(interpret_error(None, 500), VerbalixError::InterpretationFailed);
}

#[test]
fn enrollment_status_error_maps_statuses() {
    assert_eq!(enrollment_status_error(401), VerbalixError::Unauthenticated);
    assert_eq!(enrollment_status_error(403), VerbalixError::Unauthenticated);
    assert_eq!(enrollment_status_error(504), VerbalixError::ProviderTimeout);
    assert_eq!(enrollment_status_error(500), VerbalixError::EnrollmentFailed);
}

#[test]
fn voice_status_answer_maps_missing_success_and_failures() {
    assert_eq!(voice_status_answer(404), Ok(false));
    assert_eq!(voice_status_answer(200), Ok(true));
    assert_eq!(voice_status_answer(401), Err(VerbalixError::Unauthenticated));
    assert_eq!(voice_status_answer(504), Err(VerbalixError::ProviderTimeout));
    assert_eq!(voice_status_answer(500), Err(VerbalixError::EnrollmentFailed));
}

#[test]
fn interpret_outcome_maps_every_answer() {
    let o = interpret_outcome(LiveSessionId(1), SegmentId(2), InterpretAnswer::Unreachable);
    assert_eq!(o.result.unwrap_err(), VerbalixError::InterpretationFailed);
    let o = interpret_outcome(
        LiveSessionId(1),
        SegmentId(2),
        InterpretAnswer::Failed {
            code: Some("TTS_FAILED".to_owned()),
            status: 500,
        },
    );
    assert_eq!(o.result.unwrap_err(), VerbalixError::TtsFailed);
    let o = interpret_outcome(
        LiveSessionId(1),
        SegmentId(2),
        InterpretAnswer::Failed { code: None, status: 404 },
    );
    assert_eq!(o.result.unwrap_err(), VerbalixError::VoiceProfileMissing);
    let o = interpret_outcome(LiveSessionId(1), SegmentId(2), InterpretAnswer::Unreadable);
    assert_eq!(o.result.unwrap_err(), VerbalixError::InvalidResponse);
    let o = interpret_outcome(
        LiveSessionId(3),
        SegmentId(4),
        InterpretAnswer::Delivered(SegmentResult {
            audio_base64: "AA==".to_owned(),
            detected_language: "de".to_owned(),
            stage_ms: StageDurations { stt: 1, translate: 2, tts: 3 },
        }),
    );
    assert_eq!(o.session_id, LiveSessionId(3));
    assert_eq!(o.segment_id, SegmentId(4));
    assert_eq!(o.result.unwrap().detected_language, "de");
}

#[test]
fn headers_default_when_absent_or_malformed() {
    assert_eq!(header_ms(Some("250")), 250);
    assert_eq!(header_ms(Some("x")), 0);
    assert_eq!(header_ms(None), 0);
    assert_eq!(header_or(Some("fr"), "en"), "fr");
    assert_eq!(header_or(None, "en"), "en");
    assert_eq!(interpret_url("https://b.example"), "https://b.example/functions/v1/interpret");
    assert_eq!(wav_base64(&[1, 2, 3]), "AQID");
    assert_eq!(wav_base64(&[]), "");
}

#[test]
fn preamble_reader_waits_for_the_whole_preamble() {
    let frame = make_vlbx_frame("oi", &[0x10, 0x00, 0x20]);
    let mut reader = PreambleReader::new();
    assert!(reader.push(&frame[..3]).is_none());
    assert!(reader.push(&frame[3..10]).is_none());
    let (text, pcm) = reader.push(&frame[10..]).unwrap();
    assert_eq!(text, "oi");
    assert_eq!(pcm, vec![0x10, 0x00, 0x20]);
}

fn frame_with_json(json: &[u8]) -> Vec<u8> {
    let mut frame = Vec::new();
    frame.extend_from_slice(b"VLBX");
    frame.extend_from_slice(&(json.len() as u32).to_be_bytes());
    frame.extend_from_slice(json);
    frame.extend_from_slice(&[1, 2, 3]);
    frame
}

#[test]
fn preamble_without_usable_source_text_gives_empty_text() {
    assert_eq!(parse_vlbx_preamble(&frame_with_json(b"")), Some((8, String::new())));
    let missing = br#"{"other":"x"}"#;
    assert_eq!(parse_vlbx_preamble(&frame_with_json(missing)), Some((8 + missing.len(), String::new())));
    let not_a_string = br#"{"sourceText":3}"#;
    assert_eq!(
        parse_vlbx_preamble(&frame_with_json(not_a_string)),
        Some((8 + not_a_string.len(), String::new()))
    );
    let broken = b"{not json";
    assert_eq!(parse_vlbx_preamble(&frame_with_json(broken)), Some((8 + broken.len(), String::new())));
}

#[test]
fn base64_pads_the_last_group() {
    assert_eq!(wav_base64(b"Man"), "TWFu");
    assert_eq!(wav_base64(b"Ma"), "TWE=");
    assert_eq!(wav_base64(&[0xff]), "/w==");
    assert_eq!(wav_base64(&[0xfb, 0xff]), "+/8=");
}
