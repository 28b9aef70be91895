use base64::Engine as _;
use dicta_core::messages::audio_append_message;
use dicta_core::messages::commit_message;
use dicta_core::messages::session_update_message;
use dicta_core::messages::SessionConfig;
use dicta_core::session::RealtimeClient;
use dicta_core::session::SessionProtocol;

#[test]
fn commit_frame_text() {
    assert_eq!(commit_message(), "{\"type\":\"input_audio_buffer.commit\"}");
}

#[test]
fn audio_append_frame_encodes_payload() {
    let msg = audio_append_message(&[0x00, 0x01]);
    assert_eq!(
        msg,
        "{\"type\":\"input_audio_buffer.append\",\"audio\":\"AAE=\"}"
    );
}

#[test]
fn audio_append_frame_matches_engine() {
    let payload: Vec<u8> = (0u8..=255).collect();
    let msg = audio_append_message(&payload);
    let expected = format!(
        "{{\"type\":\"input_audio_buffer.append\",\"audio\":\"{}\"}}",
        base64::engine::general_purpose::STANDARD.encode(&payload)
    );
    assert_eq!(msg, expected);
}

#[test]
fn session_update_frame_text() {
    let cfg = SessionConfig::standard();
    let msg = session_update_message(&cfg);
    assert_eq!(
        msg,
        "{\"type\":\"session.update\",\"session\":{\"modalities\":[\"text\"],\
         \"input_audio_format\":\"pcm16\",\"input_audio_transcription\":\
         {\"model\":\"whisper-1\"},\"turn_detection\":{\"type\":\"server_vad\",\
         \"threshold\":0.5,\"prefix_padding_ms\":300,\"silence_duration_ms\":500}}}"
    );
}

#[test]
fn protocol_sequences_frames() {
    let mut session = SessionProtocol::new(SessionConfig::standard());
    let cfg_msg = session.configure();
    assert!(cfg_msg.contains("session.update"));
    assert_eq!(session.audio_message(&[]), None);
    let audio = session.audio_message(&[256]).unwrap();
    // 256 is 0x0100: bytes [0x00, 0x01], base64 "AAE=".
    assert_eq!(
        audio,
        "{\"type\":\"input_audio_buffer.append\",\"audio\":\"AAE=\"}"
    );
    assert_eq!(session.commit(), "{\"type\":\"input_audio_buffer.commit\"}");
}

#[test]
fn client_handshake_values() {
    let client = RealtimeClient::new("k-123".to_string());
    assert_eq!(client.auth_header_value(), "Bearer k-123");
    assert_eq!(RealtimeClient::beta_header_value(), "realtime=v1");
    assert!(RealtimeClient::endpoint_url().starts_with("wss://"));
}
