use dicta_core::records::compute_stats;
use dicta_core::records::conversation_expired;
use dicta_core::records::estimate_cost_cents;
use dicta_core::records::StatsData;
use dicta_core::records::TranscriptionEntry;
use dicta_core::records::CONVERSATION_IDLE_MS;
use dicta_core::text::clock_label;
use dicta_core::text::count_words;
use dicta_core::text::u64_to_dec;

fn entry(text: &str, ts: i64, duration: Option<i64>, cost: Option<i64>) -> TranscriptionEntry {
    TranscriptionEntry {
        id: None,
        text: text.to_string(),
        timestamp: ts,
        duration_ms: duration,
        model: Some("realtime".to_string()),
        cost_cents: cost,
        mode: Some("transcription".to_string()),
    }
}

#[test]
fn stats_aggregate_in_range_entries() {
    let entries = vec![
        entry("hello world", 100, Some(2000), Some(2)),
        entry("one two three", 200, None, Some(5)),
        entry("outside the range", 999, Some(7000), Some(9)),
    ];
    let s = compute_stats(&entries, 100, 500);
    assert_eq!(
        s,
        StatsData {
            total_words: 5,
            total_transcriptions: 2,
            total_duration_ms: 2000,
            total_cost_cents: 7,
        }
    );
}

#[test]
fn stats_range_is_inclusive_both_ends() {
    let entries = vec![
        entry("a", 100, None, None),
        entry("b", 500, None, None),
        entry("c", 501, None, None),
    ];
    let s = compute_stats(&entries, 100, 500);
    assert_eq!(s.total_transcriptions, 2);
    assert_eq!(s.total_words, 2);
}

#[test]
fn stats_of_nothing() {
    let s = compute_stats(&Vec::new(), 0, 1000);
    assert_eq!(s.total_transcriptions, 0);
    assert_eq!(s.total_words, 0);
    assert_eq!(s.total_duration_ms, 0);
    assert_eq!(s.total_cost_cents, 0);
}

#[test]
fn word_counting_collapses_whitespace() {
    assert_eq!(count_words("he llo  x"), 3);
    assert_eq!(count_words("  leading and trailing  "), 3);
    assert_eq!(count_words(""), 0);
    assert_eq!(count_words("   "), 0);
    assert_eq!(count_words("one"), 1);
}

#[test]
fn audio_cost_bills_by_duration() {
    // Six tenths of a cent per minute is one unit per second.
    assert_eq!(estimate_cost_cents("whisper", Some(90000), "ignored"), 90);
    assert_eq!(estimate_cost_cents("realtime", Some(59999), ""), 59);
    assert_eq!(estimate_cost_cents("realtime", None, ""), 0);
}

#[test]
fn text_cost_bills_by_length() {
    let text_2000: String = "x".repeat(2000);
    assert_eq!(estimate_cost_cents("gpt-4o-mini", None, &text_2000), 3);
    let text_100: String = "y".repeat(100);
    assert_eq!(estimate_cost_cents("gpt-4.1", None, &text_100), 2);
    assert_eq!(estimate_cost_cents("gpt-4.1", None, "short"), 0);
}

#[test]
fn unknown_model_costs_nothing() {
    assert_eq!(estimate_cost_cents("tts-1", Some(60000), "text"), 0);
}

#[test]
fn conversation_goes_stale_after_the_idle_bound() {
    let now: i64 = 10_000_000;
    assert!(!conversation_expired(None, now));
    assert!(!conversation_expired(Some(now - CONVERSATION_IDLE_MS), now));
    assert!(conversation_expired(Some(now - CONVERSATION_IDLE_MS - 1), now));
}

#[test]
fn clock_label_formats_time_of_day() {
    // 45296789 ms into a day: 12:34:56.789.
    assert_eq!(clock_label(45_296_789), "[12:34:56.789]");
    assert_eq!(clock_label(0), "[00:00:00.000]");
    // Only the time of day survives: one full day later reads the same.
    assert_eq!(clock_label(45_296_789 + 86_400_000), "[12:34:56.789]");
}

#[test]
fn decimal_rendering() {
    assert_eq!(u64_to_dec(0), "0");
    assert_eq!(u64_to_dec(7), "7");
    assert_eq!(u64_to_dec(1234567), "1234567");
    assert_eq!(u64_to_dec(u64::MAX), "18446744073709551615");
}
