use dicta_core::events::TranscriptionCompleted;
use dicta_core::events::TranscriptionDelta;
use dicta_core::events::TranscriptionEvent;
use dicta_core::orchestrator::drain_step;
use dicta_core::orchestrator::stop_plan;
use dicta_core::orchestrator::DrainStep;
use dicta_core::orchestrator::RecorderError;
use dicta_core::orchestrator::SessionState;
use dicta_core::orchestrator::StopPlan;
use dicta_core::orchestrator::Supervisor;
use dicta_core::orchestrator::DRAIN_BOUND_MS;
use dicta_core::orchestrator::HARD_STOP_AFTER_MS;
use dicta_core::orchestrator::SETTLE_DELAY_MS;
use dicta_core::orchestrator::WARNING_AFTER_MS;

fn delta(text: &str) -> TranscriptionEvent {
    TranscriptionEvent::Delta(TranscriptionDelta {
        item_id: "it".to_string(),
        delta: text.to_string(),
    })
}

fn completed(text: &str) -> TranscriptionEvent {
    TranscriptionEvent::Completed(TranscriptionCompleted {
        item_id: "it".to_string(),
        transcript: text.to_string(),
    })
}

#[test]
fn start_resets_session_state() {
    let mut st = SessionState::new();
    assert!(st.start(1000).is_ok());
    assert!(st.recording);
    assert!(!st.speech_active);
    assert_eq!(st.last_speech_end, None);
    assert_eq!(st.last_transcript_event, None);
    assert_eq!(st.session_transcript, "");
    assert_eq!(st.start_time, 1000);
}

#[test]
fn start_while_recording_is_refused_and_changes_nothing() {
    let mut st = SessionState::new();
    st.start(1000).unwrap();
    st.apply_event(&delta("hi"), 1100);
    st.apply_event(&TranscriptionEvent::SpeechStarted, 1200);
    let before_transcript = st.session_transcript.clone();
    let err = st.start(2000).unwrap_err();
    assert!(matches!(err, RecorderError::AlreadyRecording));
    assert_eq!(err.message(), "Already recording");
    assert!(st.recording);
    assert!(st.speech_active);
    assert_eq!(st.session_transcript, before_transcript);
    assert_eq!(st.start_time, 1000);
}

#[test]
fn delta_accumulation() {
    let mut st = SessionState::new();
    st.start(0).unwrap();
    st.apply_event(&delta("he"), 10);
    st.apply_event(&delta("llo"), 20);
    assert_eq!(st.session_transcript, "hello");
    let transcript = st.finalize();
    assert_eq!(transcript, "hello");
    assert!(!st.recording);
}

#[test]
fn completed_stamps_transcript_event_time() {
    let mut st = SessionState::new();
    st.start(0).unwrap();
    assert_eq!(st.last_transcript_event, None);
    st.apply_event(&completed("hello"), 777);
    assert_eq!(st.last_transcript_event, Some(777));
    // A completion does not touch the accumulated transcript.
    assert_eq!(st.session_transcript, "");
}

#[test]
fn speech_events_track_activity() {
    let mut st = SessionState::new();
    st.start(0).unwrap();
    assert!(!st.had_speech());
    st.apply_event(&TranscriptionEvent::SpeechStarted, 100);
    assert!(st.speech_active);
    assert!(st.had_speech());
    st.apply_event(&TranscriptionEvent::SpeechStopped, 900);
    assert!(!st.speech_active);
    assert_eq!(st.last_speech_end, Some(900));
    assert!(st.had_speech());
}

#[test]
fn error_events_change_nothing() {
    let mut st = SessionState::new();
    st.start(0).unwrap();
    st.apply_event(&delta("hi"), 10);
    st.apply_event(&TranscriptionEvent::Error("boom".to_string()), 20);
    assert_eq!(st.session_transcript, "hi");
    assert!(st.recording);
}

#[test]
fn stop_with_no_speech_finalizes_immediately() {
    let mut st = SessionState::new();
    st.start(0).unwrap();
    let snapshot = st.request_stop().unwrap();
    assert!(!snapshot.had_speech);
    // No speech this session: no commit frame, no drain wait.
    assert_eq!(stop_plan(&snapshot), StopPlan::FinalizeImmediately);
    assert!(!st.recording);
}

#[test]
fn stop_with_speech_commits_and_drains() {
    let mut st = SessionState::new();
    st.start(0).unwrap();
    st.apply_event(&TranscriptionEvent::SpeechStarted, 100);
    let snapshot = st.request_stop().unwrap();
    assert!(snapshot.had_speech);
    assert_eq!(stop_plan(&snapshot), StopPlan::CommitAndDrain);
}

#[test]
fn past_speech_alone_still_drains() {
    let mut st = SessionState::new();
    st.start(0).unwrap();
    st.apply_event(&TranscriptionEvent::SpeechStarted, 100);
    st.apply_event(&TranscriptionEvent::SpeechStopped, 200);
    let snapshot = st.request_stop().unwrap();
    assert!(snapshot.had_speech);
    assert_eq!(stop_plan(&snapshot), StopPlan::CommitAndDrain);
}

#[test]
fn stop_while_idle_is_refused() {
    let mut st = SessionState::new();
    let err = st.request_stop().unwrap_err();
    assert!(matches!(err, RecorderError::NotRecording));
    assert_eq!(err.message(), "Not recording");
}

#[test]
fn drain_finalizes_on_newer_transcript_after_settle() {
    let mut st = SessionState::new();
    st.start(0).unwrap();
    st.apply_event(&TranscriptionEvent::SpeechStarted, 100);
    let stop_time: u64 = 10000;
    let snapshot = st.request_stop().unwrap();
    assert_eq!(snapshot.transcript_event_at_stop, None);

    // Nothing new 400 ms in: keep waiting.
    assert_eq!(
        drain_step(&snapshot, None, 400, DRAIN_BOUND_MS),
        DrainStep::KeepWaiting
    );

    // A transcript event lands 500 ms after the stop.
    st.apply_event(&completed("tail"), stop_time + 500);
    assert_eq!(
        drain_step(&snapshot, st.last_transcript_event, 500, DRAIN_BOUND_MS),
        DrainStep::SettleThenFinalize
    );

    // Finalization follows after the settle delay, well before the bound.
    let finalize_at = 500 + SETTLE_DELAY_MS;
    assert_eq!(finalize_at, 650);
    assert!(finalize_at < DRAIN_BOUND_MS);
}

#[test]
fn drain_needs_a_strictly_newer_transcript() {
    let mut st = SessionState::new();
    st.start(0).unwrap();
    st.apply_event(&TranscriptionEvent::SpeechStarted, 50);
    st.apply_event(&completed("early"), 900);
    let snapshot = st.request_stop().unwrap();
    assert_eq!(snapshot.transcript_event_at_stop, Some(900));

    // The pre-stop timestamp alone does not end the wait.
    assert_eq!(
        drain_step(&snapshot, Some(900), 1000, DRAIN_BOUND_MS),
        DrainStep::KeepWaiting
    );
    assert_eq!(
        drain_step(&snapshot, Some(901), 1000, DRAIN_BOUND_MS),
        DrainStep::SettleThenFinalize
    );
}

#[test]
fn drain_times_out_at_the_bound() {
    let snapshot = {
        let mut st = SessionState::new();
        st.start(0).unwrap();
        st.apply_event(&TranscriptionEvent::SpeechStarted, 10);
        st.request_stop().unwrap()
    };
    assert_eq!(
        drain_step(&snapshot, None, DRAIN_BOUND_MS, DRAIN_BOUND_MS),
        DrainStep::KeepWaiting
    );
    assert_eq!(
        drain_step(&snapshot, None, DRAIN_BOUND_MS + 1, DRAIN_BOUND_MS),
        DrainStep::FinalizeNow
    );
}

#[test]
fn supervisor_warns_once_and_requests_stop_once() {
    let mut sup = Supervisor::new();
    let quiet = sup.tick(WARNING_AFTER_MS - 1, true, true);
    assert!(!quiet.show_warning && !quiet.request_stop && !quiet.stop_polling);

    let warn = sup.tick(WARNING_AFTER_MS, true, true);
    assert!(warn.show_warning);
    assert!(!warn.request_stop);

    let again = sup.tick(WARNING_AFTER_MS + 100, true, true);
    assert!(!again.show_warning);

    let hard = sup.tick(HARD_STOP_AFTER_MS, true, true);
    assert!(hard.request_stop);
    assert!(!hard.stop_polling);

    let after = sup.tick(HARD_STOP_AFTER_MS + 100, true, true);
    assert!(!after.request_stop);
}

#[test]
fn supervisor_stops_polling_on_stop_or_dead_listener() {
    let mut sup = Supervisor::new();
    assert!(sup.tick(0, false, true).stop_polling);
    let mut sup2 = Supervisor::new();
    let out = sup2.tick(0, true, false);
    assert!(out.stop_polling);
}

#[test]
fn error_messages_carry_their_detail() {
    assert_eq!(
        RecorderError::NoInputDevice.message(),
        "No input device available"
    );
    assert_eq!(
        RecorderError::Connect("refused".to_string()).message(),
        "Failed to connect: refused"
    );
    assert_eq!(
        RecorderError::Config("rejected".to_string()).message(),
        "Failed to configure session: rejected"
    );
    assert_eq!(
        RecorderError::Protocol("closed".to_string()).message(),
        "Session error: closed"
    );
}

#[test]
fn cancel_discards_a_running_session() {
    let mut st = SessionState::new();
    st.start(0).unwrap();
    assert!(st.cancel().is_ok());
    assert!(!st.recording);
    assert!(matches!(
        st.cancel().unwrap_err(),
        RecorderError::NotRecording
    ));
}

#[test]
fn abort_clears_the_recording_flag() {
    let mut st = SessionState::new();
    st.start(0).unwrap();
    st.abort_session();
    assert!(!st.recording);
}
