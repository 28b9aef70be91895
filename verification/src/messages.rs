//! Outbound protocol messages.
//!
//! The session speaks JSON text frames over a persistent socket: one
//! session-configuration message, then any number of audio-append
//! messages, and an explicit buffer-commit when the recording stops.  The
//! exact text of each frame is pinned here; audio payloads travel
//! base64-encoded.

use vstd::prelude::*;
use vstd::string::StringExecFns;
use base64::Engine as _;
use crate::text::dec_digits;
use crate::text::digit_char;
use crate::text::push_char;
use crate::text::u64_to_dec;

verus! {

/// The base64 text that the standard engine produces for `b`.
pub uninterp spec fn base64_of(b: Seq<u8>) -> Seq<char>;

/// True of the characters the standard base64 alphabet and its padding
/// use: letters, digits, `+`, `/` and `=`.
pub open spec fn base64_char(c: char) -> bool {
    (65 <= c as u32 <= 90) || (97 <= c as u32 <= 122) || (48 <= c as u32 <= 57) || c == '+' || c
        == '/' || c == '='
}

/// Relies on base64's `Engine::encode` with the `STANDARD` engine: the RFC
/// 4648 alphabet with `=` padding, four output characters for every three
/// input bytes begun.  The length bound keeps the output size computation
/// of the engine from overflowing.
#[verifier::external_body]
fn to_base64(bytes: &[u8]) -> (r: String)
    requires
        4 * ((bytes@.len() + 2) / 3) <= usize::MAX,
    ensures
        r@ == base64_of(bytes@),
        r@.len() == 4 * ((bytes@.len() + 2) / 3),
        forall|i: int| 0 <= i < r@.len() ==> base64_char(#[trigger] r@[i]),
{
    base64::engine::general_purpose::STANDARD.encode(bytes)
}

/// The audio-append frame around a base64 payload.
pub open spec fn spec_audio_append_message(audio: Seq<u8>) -> Seq<char> {
    "{\"type\":\"input_audio_buffer.append\",\"audio\":\""@ + base64_of(audio) + "\"}"@
}

/// Build the audio-append frame for a block of PCM bytes.
pub fn audio_append_message(audio: &[u8]) -> (msg: String)
    requires
        4 * ((audio@.len() + 2) / 3) <= usize::MAX,
    ensures
        msg@ == spec_audio_append_message(audio@),
{
    let b64 = to_base64(audio);
    let mut msg = String::from_str("{\"type\":\"input_audio_buffer.append\",\"audio\":\"");
    msg.append(b64.as_str());
    msg.append("\"}");
    msg
}

/// The buffer-commit frame: it forces the service to transcribe whatever
/// audio is buffered, independent of voice-activity detection.
pub open spec fn spec_commit_message() -> Seq<char> {
    "{\"type\":\"input_audio_buffer.commit\"}"@
}

/// Build the buffer-commit frame.
pub fn commit_message() -> (msg: String)
    ensures
        msg@ == spec_commit_message(),
{
    String::from_str("{\"type\":\"input_audio_buffer.commit\"}")
}

/// True of text that can stand inside a JSON string without escaping: no
/// quote, no backslash, no control character.
pub open spec fn json_plain(s: Seq<char>) -> bool {
    forall|i: int|
        0 <= i < s.len() ==> s[i] != '"' && s[i] != '\\' && (#[trigger] s[i]) as u32 >= 0x20
}

/// Tunable parameters of the session-configuration frame.
///
/// The voice-activity threshold is carried in tenths, rendered as `0.t` on
/// the wire.
pub struct SessionConfig {
    pub asr_model: String,
    pub vad_threshold_tenths: u8,
    pub prefix_padding_ms: u32,
    pub silence_duration_ms: u32,
}

impl SessionConfig {
    /// A configuration is renderable when its model identifier needs no
    /// JSON escaping and its threshold is a single digit of tenths.
    pub open spec fn wf(&self) -> bool {
        json_plain(self.asr_model@) && self.vad_threshold_tenths < 10
    }

    /// The default policy: threshold 0.5, 300 ms prefix padding, 500 ms of
    /// silence to close a turn.
    pub fn standard() -> (c: SessionConfig)
        ensures
            c.wf(),
            c.asr_model@ == "whisper-1"@,
            c.vad_threshold_tenths == 5,
            c.prefix_padding_ms == 300,
            c.silence_duration_ms == 500,
    {
        proof {
            reveal_strlit("whisper-1");
        }
        SessionConfig {
            asr_model: String::from_str("whisper-1"),
            vad_threshold_tenths: 5,
            prefix_padding_ms: 300,
            silence_duration_ms: 500,
        }
    }
}

/// The session-configuration frame: text-only output, PCM16 input, the
/// configured transcription model, and server-side voice-activity
/// detection with the configured parameters.
pub open spec fn spec_session_update_message(c: SessionConfig) -> Seq<char> {
    "{\"type\":\"session.update\",\"session\":{\"modalities\":[\"text\"],\"input_audio_format\":\"pcm16\",\"input_audio_transcription\":{\"model\":\""@
        + c.asr_model@
        + "\"},\"turn_detection\":{\"type\":\"server_vad\",\"threshold\":0."@ + seq![
        digit_char(c.vad_threshold_tenths as int),
    ] + ",\"prefix_padding_ms\":"@ + dec_digits(c.prefix_padding_ms as int)
        + ",\"silence_duration_ms\":"@ + dec_digits(c.silence_duration_ms as int) + "}}}"@
}

/// Build the session-configuration frame.
pub fn session_update_message(c: &SessionConfig) -> (msg: String)
    requires
        c.wf(),
    ensures
        msg@ == spec_session_update_message(*c),
{
    let mut msg = String::from_str(
        "{\"type\":\"session.update\",\"session\":{\"modalities\":[\"text\"],\"input_audio_format\":\"pcm16\",\"input_audio_transcription\":{\"model\":\"",
    );
    msg.append(c.asr_model.as_str());
    msg.append("\"},\"turn_detection\":{\"type\":\"server_vad\",\"threshold\":0.");
    push_char(&mut msg, (48 + c.vad_threshold_tenths) as char);
    msg.append(",\"prefix_padding_ms\":");
    let padding = u64_to_dec(c.prefix_padding_ms as u64);
    msg.append(padding.as_str());
    msg.append(",\"silence_duration_ms\":");
    let silence = u64_to_dec(c.silence_duration_ms as u64);
    msg.append(silence.as_str());
    msg.append("}}}");
    msg
}

} // verus!
