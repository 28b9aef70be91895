//! Verified core of a live speech-transcription pipeline.
//!
//! A microphone feed is downmixed to mono, resampled to a fixed 24 kHz
//! target rate, framed into protocol messages for a realtime transcription
//! service, and the inbound event stream drives a session state machine
//! that accumulates the transcript and runs a bounded stop-and-drain
//! sequence.  This crate holds the logic of that pipeline: sample-rate
//! conversion, message framing and parsing, and the recording state
//! machine.  Socket, microphone and timer plumbing live outside it and
//! hand plain values in and out.

pub mod audio;
pub mod chunking;
pub mod devices;
pub mod events;
pub mod json;
pub mod messages;
pub mod orchestrator;
pub mod records;
pub mod resample;
pub mod session;
pub mod text;
