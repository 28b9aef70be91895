use dicta_core::events::parse_event;
use dicta_core::events::TranscriptionEvent;

fn expect_delta(frame: &str) -> (String, String) {
    match parse_event(frame) {
        Some(TranscriptionEvent::Delta(d)) => (d.item_id, d.delta),
        other => panic!("expected a delta event, got {:?}", other),
    }
}

#[test]
fn delta_frame() {
    let (item, delta) = expect_delta(
        "{\"type\":\"conversation.item.input_audio_transcription.delta\",\
         \"item_id\":\"it1\",\"delta\":\"he\"}",
    );
    assert_eq!(item, "it1");
    assert_eq!(delta, "he");
}

#[test]
fn delta_frame_missing_item_id() {
    let (item, delta) = expect_delta(
        "{\"type\":\"conversation.item.input_audio_transcription.delta\",\"delta\":\"x\"}",
    );
    assert_eq!(item, "");
    assert_eq!(delta, "x");
}

#[test]
fn delta_frame_without_delta_field_is_ignored() {
    let frame = "{\"type\":\"conversation.item.input_audio_transcription.delta\"}";
    assert!(parse_event(frame).is_none());
}

#[test]
fn completed_frame() {
    let frame = "{\"type\":\"conversation.item.input_audio_transcription.completed\",\
                 \"item_id\":\"it2\",\"transcript\":\"hello world\"}";
    match parse_event(frame) {
        Some(TranscriptionEvent::Completed(c)) => {
            assert_eq!(c.item_id, "it2");
            assert_eq!(c.transcript, "hello world");
        }
        other => panic!("expected a completed event, got {:?}", other),
    }
}

#[test]
fn speech_boundary_frames() {
    assert!(matches!(
        parse_event("{\"type\":\"input_audio_buffer.speech_started\"}"),
        Some(TranscriptionEvent::SpeechStarted)
    ));
    assert!(matches!(
        parse_event("{\"type\":\"input_audio_buffer.speech_stopped\"}"),
        Some(TranscriptionEvent::SpeechStopped)
    ));
}

#[test]
fn error_frame_carries_message() {
    let frame = "{\"type\":\"error\",\"error\":{\"code\":\"bad\",\"message\":\"boom\"}}";
    match parse_event(frame) {
        Some(TranscriptionEvent::Error(m)) => assert_eq!(m, "boom"),
        other => panic!("expected an error event, got {:?}", other),
    }
}

#[test]
fn error_frame_without_message() {
    match parse_event("{\"type\":\"error\"}") {
        Some(TranscriptionEvent::Error(m)) => assert_eq!(m, "Unknown error"),
        other => panic!("expected an error event, got {:?}", other),
    }
}

#[test]
fn unhandled_types_are_ignored() {
    assert!(parse_event("{\"type\":\"session.created\",\"session\":{\"id\":\"s1\"}}").is_none());
    assert!(parse_event("{\"type\":\"input_audio_buffer.committed\"}").is_none());
    assert!(parse_event("{\"type\":\"something.new\"}").is_none());
}

#[test]
fn malformed_frames_are_ignored() {
    assert!(parse_event("").is_none());
    assert!(parse_event("not json").is_none());
    assert!(parse_event("{\"type\":\"error\"").is_none());
    assert!(parse_event("{\"type\":4}").is_none());
    assert!(parse_event("[\"type\",\"error\"]").is_none());
    assert!(parse_event("{\"type\":\"error\"} trailing").is_none());
}

#[test]
fn non_string_payload_is_ignored() {
    let frame = "{\"type\":\"conversation.item.input_audio_transcription.delta\",\"delta\":5}";
    assert!(parse_event(frame).is_none());
}

#[test]
fn nested_fields_do_not_count_as_top_level() {
    let frame = "{\"type\":\"conversation.item.input_audio_transcription.delta\",\
                 \"wrapper\":{\"delta\":\"inner\"}}";
    assert!(parse_event(frame).is_none());
}

#[test]
fn payload_cannot_spoof_the_type_field() {
    // The type marker inside the delta string is payload, not structure.
    let frame = "{\"delta\":\"x \\\"type\\\":\\\"error\\\" y\",\
                 \"type\":\"conversation.item.input_audio_transcription.delta\"}";
    let (_, delta) = expect_delta(frame);
    assert_eq!(delta, "x \"type\":\"error\" y");
}

#[test]
fn duplicate_keys_last_wins() {
    let frame = "{\"type\":\"conversation.item.input_audio_transcription.delta\",\
                 \"delta\":\"first\",\"delta\":\"second\"}";
    let (_, delta) = expect_delta(frame);
    assert_eq!(delta, "second");
}

#[test]
fn string_escapes_are_decoded() {
    let frame = "{\"type\":\"conversation.item.input_audio_transcription.delta\",\
                 \"delta\":\"a\\nb\\tc\\\\d\\u0041\\u00e9\"}";
    let (_, delta) = expect_delta(frame);
    assert_eq!(delta, "a\nb\tc\\dA\u{e9}");
}

#[test]
fn surrogate_pair_escapes_are_decoded() {
    let frame = "{\"type\":\"conversation.item.input_audio_transcription.delta\",\
                 \"delta\":\"\\uD83D\\uDE00\"}";
    let (_, delta) = expect_delta(frame);
    assert_eq!(delta, "\u{1F600}");
}

#[test]
fn lone_surrogate_is_rejected() {
    let frame = "{\"type\":\"conversation.item.input_audio_transcription.delta\",\
                 \"delta\":\"\\uD83D\"}";
    assert!(parse_event(frame).is_none());
}

#[test]
fn raw_unicode_passes_through() {
    let frame = "{\"type\":\"conversation.item.input_audio_transcription.delta\",\
                 \"delta\":\"caf\u{e9} \u{1F3A4}\"}";
    let (_, delta) = expect_delta(frame);
    assert_eq!(delta, "caf\u{e9} \u{1F3A4}");
}

#[test]
fn whitespace_and_nesting_tolerated() {
    let frame = "  {\n  \"extra\": [1, 2.5, -3e2, true, false, null, {\"a\":[]}],\
                 \"type\" :\t\"input_audio_buffer.speech_started\"\n}  ";
    assert!(matches!(
        parse_event(frame),
        Some(TranscriptionEvent::SpeechStarted)
    ));
}

#[test]
fn control_character_in_string_rejected() {
    let frame = "{\"type\":\"conversation.item.input_audio_transcription.delta\",\
                 \"delta\":\"a\u{0001}b\"}";
    assert!(parse_event(frame).is_none());
}
