//! Inbound protocol events.
//!
//! The transcription service pushes JSON frames over the socket; the ones
//! the pipeline acts on are incremental transcript deltas, completed
//! utterances, speech boundaries flagged by server-side voice-activity
//! detection, and application errors.  Everything else is ignored.

use vstd::prelude::*;
use vstd::string::StringExecFns;
use crate::json::spec_nested_string_field;
use crate::json::spec_top_string_field;
use crate::json::nested_string_field;
use crate::json::top_string_field;
use crate::text::str_eq;
use crate::text::str_to_chars;

verus! {

/// An incremental transcript fragment for one conversation item.
#[derive(Debug, Clone)]
pub struct TranscriptionDelta {
    pub item_id: String,
    pub delta: String,
}

/// The finished transcript of one conversation item.
#[derive(Debug, Clone)]
pub struct TranscriptionCompleted {
    pub item_id: String,
    pub transcript: String,
}

/// An inbound event the pipeline acts on.
#[derive(Debug, Clone)]
pub enum TranscriptionEvent {
    Delta(TranscriptionDelta),
    Completed(TranscriptionCompleted),
    SpeechStarted,
    SpeechStopped,
    Error(String),
}

/// The mathematical shape of an event: its payloads as character
/// sequences.
pub enum EventModel {
    Delta { item_id: Seq<char>, delta: Seq<char> },
    Completed { item_id: Seq<char>, transcript: Seq<char> },
    SpeechStarted,
    SpeechStopped,
    Error { message: Seq<char> },
}

impl View for TranscriptionEvent {
    type V = EventModel;

    open spec fn view(&self) -> EventModel {
        match self {
            TranscriptionEvent::Delta(d) => (EventModel::Delta {
                item_id: d.item_id@,
                delta: d.delta@,
            }),
            TranscriptionEvent::Completed(c) => (EventModel::Completed {
                item_id: c.item_id@,
                transcript: c.transcript@,
            }),
            TranscriptionEvent::SpeechStarted => EventModel::SpeechStarted,
            TranscriptionEvent::SpeechStopped => EventModel::SpeechStopped,
            TranscriptionEvent::Error(m) => (EventModel::Error { message: m@ }),
        }
    }
}

/// The content of the top-level string field `key`, or `dflt` where the
/// frame has none.
pub open spec fn spec_field_or(s: Seq<char>, key: Seq<char>, dflt: Seq<char>) -> Seq<char> {
    match spec_top_string_field(s, key) {
        Some(x) => x,
        None => dflt,
    }
}

/// Which event a frame carries, if any.
///
/// The frame must be one well-formed JSON object; its `type` field picks
/// the event, and the event's payload field must be present as a string —
/// a delta without `delta`, or a completion without `transcript`, carries
/// nothing.  An `error` frame carries the message inside its `error`
/// object, with a fixed fallback where that is missing.  Every other
/// frame, malformed or of an unhandled type, carries nothing and is
/// ignored.
pub open spec fn spec_parse_event(s: Seq<char>) -> Option<EventModel> {
    match spec_top_string_field(s, "type"@) {
        None => None,
        Some(t) => if t == "conversation.item.input_audio_transcription.delta"@ {
            match spec_top_string_field(s, "delta"@) {
                None => None,
                Some(d) => Some(
                    EventModel::Delta {
                        item_id: spec_field_or(s, "item_id"@, Seq::empty()),
                        delta: d,
                    },
                ),
            }
        } else if t == "conversation.item.input_audio_transcription.completed"@ {
            match spec_top_string_field(s, "transcript"@) {
                None => None,
                Some(tr) => Some(
                    EventModel::Completed {
                        item_id: spec_field_or(s, "item_id"@, Seq::empty()),
                        transcript: tr,
                    },
                ),
            }
        } else if t == "input_audio_buffer.speech_started"@ {
            Some(EventModel::SpeechStarted)
        } else if t == "input_audio_buffer.speech_stopped"@ {
            Some(EventModel::SpeechStopped)
        } else if t == "error"@ {
            Some(
                EventModel::Error {
                    message: match spec_nested_string_field(s, "error"@, "message"@) {
                        Some(m) => m,
                        None => "Unknown error"@,
                    },
                },
            )
        } else {
            None
        },
    }
}

/// Parse one inbound frame into the event it carries, if any.
pub fn parse_event(text: &str) -> (r: Option<TranscriptionEvent>)
    ensures
        match r {
            Some(ev) => spec_parse_event(text@) == Some(ev@),
            None => spec_parse_event(text@) is None,
        },
{
    let v = str_to_chars(text);
    let t = match top_string_field(&v, "type") {
        Some(t) => t,
        None => {
            return None;
        },
    };
    if str_eq(t.as_str(), "conversation.item.input_audio_transcription.delta") {
        let delta = match top_string_field(&v, "delta") {
            Some(d) => d,
            None => {
                return None;
            },
        };
        let item_id = match top_string_field(&v, "item_id") {
            Some(i) => i,
            None => String::new(),
        };
        Some(TranscriptionEvent::Delta(TranscriptionDelta { item_id, delta }))
    } else if str_eq(t.as_str(), "conversation.item.input_audio_transcription.completed") {
        let transcript = match top_string_field(&v, "transcript") {
            Some(tr) => tr,
            None => {
                return None;
            },
        };
        let item_id = match top_string_field(&v, "item_id") {
            Some(i) => i,
            None => String::new(),
        };
        Some(TranscriptionEvent::Completed(TranscriptionCompleted { item_id, transcript }))
    } else if str_eq(t.as_str(), "input_audio_buffer.speech_started") {
        Some(TranscriptionEvent::SpeechStarted)
    } else if str_eq(t.as_str(), "input_audio_buffer.speech_stopped") {
        Some(TranscriptionEvent::SpeechStopped)
    } else if str_eq(t.as_str(), "error") {
        let message = match nested_string_field(&v, "error", "message") {
            Some(m) => m,
            None => String::from_str("Unknown error"),
        };
        Some(TranscriptionEvent::Error(message))
    } else {
        None
    }
}

} // verus!
