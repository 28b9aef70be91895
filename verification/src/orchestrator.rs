//! The recording session state machine.
//!
//! One session lives at a time.  Starting flips the recording flag and
//! resets the per-session state; inbound events update speech tracking and
//! append transcript deltas; a supervisory tick raises an elapsed-time
//! warning and a hard-stop request; stopping captures a snapshot that
//! decides between finalizing immediately and a bounded commit-and-drain
//! wait for the last in-flight utterance.
//!
//! Every function here is a pure transition on plain values.  The loops,
//! sockets and timers that drive it live outside the crate and feed it
//! timestamps in milliseconds.

use vstd::prelude::*;
use vstd::string::StringExecFns;
use crate::events::EventModel;
use crate::events::TranscriptionEvent;

verus! {

/// Poll interval of the supervisory loop, in milliseconds.
pub const POLL_INTERVAL_MS: u64 = 100;

/// Elapsed time after which the one-shot warning notice is raised.
pub const WARNING_AFTER_MS: u64 = 300000;

/// Elapsed time after which a stop is requested rather than forced.
pub const HARD_STOP_AFTER_MS: u64 = 360000;

/// How long the warning notice stays visible before it clears itself.
pub const WARNING_VISIBLE_MS: u64 = 4000;

/// Bound of the inner drain wait after a stop with speech.
pub const DRAIN_BOUND_MS: u64 = 3500;

/// Bound of the outer drain wait allowed to the caller of stop.
pub const OUTER_DRAIN_BOUND_MS: u64 = 4500;

/// Settle delay after the first transcript event newer than the stop
/// snapshot, inner wait.
pub const SETTLE_DELAY_MS: u64 = 150;

/// Settle delay of the outer wait.
pub const OUTER_SETTLE_DELAY_MS: u64 = 200;

/// Why a session call was refused or torn down.
#[derive(Debug, Clone)]
pub enum RecorderError {
    AlreadyRecording,
    NotRecording,
    NoInputDevice,
    Connect(String),
    Config(String),
    Protocol(String),
}

impl RecorderError {
    /// The message a caller sees, matching the taxonomy's wording.
    pub fn message(&self) -> (m: String)
        ensures
            self is AlreadyRecording ==> m@ == "Already recording"@,
            self is NotRecording ==> m@ == "Not recording"@,
            self is NoInputDevice ==> m@ == "No input device available"@,
    {
        match self {
            RecorderError::AlreadyRecording => String::from_str("Already recording"),
            RecorderError::NotRecording => String::from_str("Not recording"),
            RecorderError::NoInputDevice => String::from_str("No input device available"),
            RecorderError::Connect(e) => String::from_str("Failed to connect: ").concat(
                e.as_str(),
            ),
            RecorderError::Config(e) => String::from_str("Failed to configure session: ").concat(
                e.as_str(),
            ),
            RecorderError::Protocol(e) => String::from_str("Session error: ").concat(e.as_str()),
        }
    }
}

/// Shared state of the live session.
///
/// `recording` is the cross-thread run flag; `speech_active` and the two
/// timestamps track server-side voice activity; `session_transcript`
/// grows append-only while the session runs.
pub struct SessionState {
    pub recording: bool,
    pub speech_active: bool,
    pub last_speech_end: Option<u64>,
    pub last_transcript_event: Option<u64>,
    pub session_transcript: String,
    pub start_time: u64,
}

/// The mathematical shape of the session state.
pub struct StateModel {
    pub recording: bool,
    pub speech_active: bool,
    pub last_speech_end: Option<u64>,
    pub last_transcript_event: Option<u64>,
    pub transcript: Seq<char>,
    pub start_time: u64,
}

impl View for SessionState {
    type V = StateModel;

    open spec fn view(&self) -> StateModel {
        StateModel {
            recording: self.recording,
            speech_active: self.speech_active,
            last_speech_end: self.last_speech_end,
            last_transcript_event: self.last_transcript_event,
            transcript: self.session_transcript@,
            start_time: self.start_time,
        }
    }
}

/// Whether any speech was seen this session: either it is active now or a
/// speech end was recorded earlier.
pub open spec fn spec_had_speech(m: StateModel) -> bool {
    m.speech_active || m.last_speech_end is Some
}

/// The state a fresh session starts from at time `now`.
pub open spec fn spec_started(now: u64) -> StateModel {
    StateModel {
        recording: true,
        speech_active: false,
        last_speech_end: None,
        last_transcript_event: None,
        transcript: Seq::empty(),
        start_time: now,
    }
}

/// How one inbound event transforms the state at time `now`: a delta
/// appends its text, a completed utterance stamps the transcript-event
/// time, speech boundaries toggle the speech flag, an application error
/// changes nothing.
pub open spec fn spec_apply_event(pre: StateModel, ev: EventModel, now: u64) -> StateModel {
    match ev {
        EventModel::Delta { item_id, delta } => (StateModel {
            transcript: pre.transcript + delta,
            ..pre
        }),
        EventModel::Completed { item_id, transcript } => (StateModel {
            last_transcript_event: Some(now),
            ..pre
        }),
        EventModel::SpeechStarted => (StateModel { speech_active: true, ..pre }),
        EventModel::SpeechStopped => (StateModel {
            speech_active: false,
            last_speech_end: Some(now),
            ..pre
        }),
        EventModel::Error { message } => pre,
    }
}

/// The session transcript is append-only while the session runs: whatever
/// event arrives, the transcript so far stays a prefix of the new one.
pub proof fn lemma_transcript_append_only(pre: StateModel, ev: EventModel, now: u64)
    ensures
        spec_apply_event(pre, ev, now).transcript.len() >= pre.transcript.len(),
        spec_apply_event(pre, ev, now).transcript.subrange(0, pre.transcript.len() as int)
            == pre.transcript,
{
    let post = spec_apply_event(pre, ev, now);
    match ev {
        EventModel::Delta { item_id, delta } => {
            assert(post.transcript.subrange(0, pre.transcript.len() as int) =~= pre.transcript);
        },
        _ => {
            assert(post.transcript.subrange(0, pre.transcript.len() as int) =~= pre.transcript);
        },
    }
}

/// What the stop sequence captured at the moment of the stop request.
#[derive(Debug, Clone)]
pub struct StopSnapshot {
    pub had_speech: bool,
    pub transcript_event_at_stop: Option<u64>,
}

/// What to do when the user stops the session.
#[derive(Debug, PartialEq, Eq, Structural)]
pub enum StopPlan {
    FinalizeImmediately,
    CommitAndDrain,
}

/// One decision of the bounded drain wait.
#[derive(Debug, PartialEq, Eq, Structural)]
pub enum DrainStep {
    KeepWaiting,
    SettleThenFinalize,
    FinalizeNow,
}

/// Whether a transcript event strictly newer than the stop snapshot has
/// arrived.
pub open spec fn spec_newer_transcript(snapshot: Option<u64>, latest: Option<u64>) -> bool {
    match latest {
        Some(l) => match snapshot {
            Some(b) => l > b,
            None => true,
        },
        None => false,
    }
}

impl SessionState {
    /// A fresh, idle state.
    pub fn new() -> (s: SessionState)
        ensures
            !s@.recording,
            !s@.speech_active,
            s@.last_speech_end is None,
            s@.last_transcript_event is None,
            s@.transcript == Seq::<char>::empty(),
            s@.start_time == 0,
    {
        SessionState {
            recording: false,
            speech_active: false,
            last_speech_end: None,
            last_transcript_event: None,
            session_transcript: String::new(),
            start_time: 0,
        }
    }

    /// Begin a session at time `now`.
    ///
    /// A second start while one session runs is refused and changes
    /// nothing; otherwise the recording flag flips on and every
    /// per-session field is reset.
    pub fn start(&mut self, now: u64) -> (r: Result<(), RecorderError>)
        ensures
            old(self)@.recording ==> r is Err && r->Err_0 is AlreadyRecording && final(self)@
                == old(self)@,
            !old(self)@.recording ==> r is Ok && final(self)@ == spec_started(now),
    {
        if self.recording {
            return Err(RecorderError::AlreadyRecording);
        }
        self.recording = true;
        self.speech_active = false;
        self.last_speech_end = None;
        self.last_transcript_event = None;
        self.session_transcript = String::new();
        self.start_time = now;
        Ok(())
    }

    /// Absorb one inbound event at time `now`.
    pub fn apply_event(&mut self, event: &TranscriptionEvent, now: u64)
        ensures
            final(self)@ == spec_apply_event(old(self)@, event@, now),
    {
        match event {
            TranscriptionEvent::Delta(d) => {
                self.session_transcript.append(d.delta.as_str());
            },
            TranscriptionEvent::Completed(_) => {
                self.last_transcript_event = Some(now);
            },
            TranscriptionEvent::SpeechStarted => {
                self.speech_active = true;
            },
            TranscriptionEvent::SpeechStopped => {
                self.speech_active = false;
                self.last_speech_end = Some(now);
            },
            TranscriptionEvent::Error(_) => {},
        }
    }

    /// Whether any speech was seen this session.
    pub fn had_speech(&self) -> (r: bool)
        ensures
            r == spec_had_speech(self@),
    {
        self.speech_active || self.last_speech_end.is_some()
    }

    /// Take the stop request: the recording flag drops, and the snapshot
    /// captures whether speech occurred and which transcript event was the
    /// newest at stop time.  Stopping an idle recorder is refused and
    /// changes nothing.
    pub fn request_stop(&mut self) -> (r: Result<StopSnapshot, RecorderError>)
        ensures
            !old(self)@.recording ==> r is Err && r->Err_0 is NotRecording
                && final(self)@ == old(self)@,
            old(self)@.recording ==> r is Ok
                && r->Ok_0.had_speech == spec_had_speech(old(self)@)
                && r->Ok_0.transcript_event_at_stop == old(self)@.last_transcript_event
                && final(self)@ == (StateModel { recording: false, ..old(self)@ }),
    {
        if !self.recording {
            return Err(RecorderError::NotRecording);
        }
        let had = self.speech_active || self.last_speech_end.is_some();
        let snapshot = StopSnapshot {
            had_speech: had,
            transcript_event_at_stop: self.last_transcript_event,
        };
        self.recording = false;
        Ok(snapshot)
    }

    /// Finalize: the recording flag is down and the accumulated transcript
    /// goes to the caller, who must reset it through `start` before the
    /// next session.
    pub fn finalize(&mut self) -> (transcript: String)
        ensures
            transcript@ == old(self)@.transcript,
            final(self)@ == (StateModel { recording: false, ..old(self)@ }),
    {
        self.recording = false;
        self.session_transcript.clone()
    }

    /// Discard a local capture session without any network involvement.
    pub fn cancel(&mut self) -> (r: Result<(), RecorderError>)
        ensures
            !old(self)@.recording ==> r is Err && r->Err_0 is NotRecording
                && final(self)@ == old(self)@,
            old(self)@.recording ==> r is Ok
                && final(self)@ == (StateModel { recording: false, ..old(self)@ }),
    {
        if !self.recording {
            return Err(RecorderError::NotRecording);
        }
        self.recording = false;
        Ok(())
    }

    /// A terminal failure on the way up (device, connect or configure)
    /// clears the recording flag so no failure path leaves it stuck.
    pub fn abort_session(&mut self)
        ensures
            final(self)@ == (StateModel { recording: false, ..old(self)@ }),
    {
        self.recording = false;
    }
}

/// The plan the stop sequence follows, decided from the stop snapshot: no
/// speech this session means finalize at once, with no commit and no
/// drain wait; any speech means commit the audio buffer and drain.
pub fn stop_plan(snapshot: &StopSnapshot) -> (p: StopPlan)
    ensures
        p == (if snapshot.had_speech {
            StopPlan::CommitAndDrain
        } else {
            StopPlan::FinalizeImmediately
        }),
{
    if snapshot.had_speech {
        StopPlan::CommitAndDrain
    } else {
        StopPlan::FinalizeImmediately
    }
}

/// One decision of the drain wait, taken each poll: the first transcript
/// event strictly newer than the stop snapshot ends the wait after a short
/// settle delay; past the bound the session finalizes with whatever
/// transcript has accumulated; otherwise keep waiting.
pub fn drain_step(
    snapshot: &StopSnapshot,
    latest_transcript_event: Option<u64>,
    elapsed_ms: u64,
    bound_ms: u64,
) -> (s: DrainStep)
    ensures
        s == (if spec_newer_transcript(snapshot.transcript_event_at_stop, latest_transcript_event) {
            DrainStep::SettleThenFinalize
        } else if elapsed_ms > bound_ms {
            DrainStep::FinalizeNow
        } else {
            DrainStep::KeepWaiting
        }),
{
    let newer = match latest_transcript_event {
        Some(l) => match snapshot.transcript_event_at_stop {
            Some(b) => l > b,
            None => true,
        },
        None => false,
    };
    if newer {
        DrainStep::SettleThenFinalize
    } else if elapsed_ms > bound_ms {
        DrainStep::FinalizeNow
    } else {
        DrainStep::KeepWaiting
    }
}

/// One-shot latches of the supervisory loop.
pub struct Supervisor {
    pub warning_shown: bool,
    pub auto_stop_triggered: bool,
}

/// What one supervisory tick asks the surrounding loop to do.
pub struct TickOutcome {
    pub stop_polling: bool,
    pub show_warning: bool,
    pub request_stop: bool,
}

impl Supervisor {
    /// A fresh supervisor with both latches clear.
    pub fn new() -> (s: Supervisor)
        ensures
            !s.warning_shown,
            !s.auto_stop_triggered,
    {
        Supervisor { warning_shown: false, auto_stop_triggered: false }
    }

    /// One tick of the supervisory loop.
    ///
    /// Polling stops when the recording flag dropped or the listener died
    /// (a forced stop).  While the session runs, the warning fires once at
    /// its threshold, and past the hard threshold the tick asks for an
    /// external stop request rather than tearing the session down itself.
    pub fn tick(&mut self, elapsed_ms: u64, still_recording: bool, listener_alive: bool) -> (o:
        TickOutcome)
        ensures
            o.stop_polling == (!still_recording || !listener_alive),
            o.show_warning == (still_recording && elapsed_ms >= WARNING_AFTER_MS && !old(
                self,
            ).warning_shown),
            o.request_stop == (still_recording && elapsed_ms >= HARD_STOP_AFTER_MS && !old(
                self,
            ).auto_stop_triggered),
            final(self).warning_shown == (old(self).warning_shown || o.show_warning),
            final(self).auto_stop_triggered == (old(self).auto_stop_triggered || o.request_stop),
    {
        if !still_recording {
            return TickOutcome { stop_polling: true, show_warning: false, request_stop: false };
        }
        let show_warning = elapsed_ms >= WARNING_AFTER_MS && !self.warning_shown;
        if show_warning {
            self.warning_shown = true;
        }
        let request_stop = elapsed_ms >= HARD_STOP_AFTER_MS && !self.auto_stop_triggered;
        if request_stop {
            self.auto_stop_triggered = true;
        }
        TickOutcome { stop_polling: !listener_alive, show_warning, request_stop }
    }
}

} // verus!
