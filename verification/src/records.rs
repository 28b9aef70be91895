//! Session records and usage statistics.
//!
//! Finalized transcripts are handed to a persistence sink as records;
//! usage statistics aggregate them over a time range.  Storage itself
//! lives outside the crate; the records and the aggregation over them
//! are pinned here, as is the cost estimate attached to each record and
//! the staleness rule for conversation history.

use vstd::prelude::*;
use vstd::string::StringSliceAdditionalSpecFns;
use crate::resample::tdiv;
use crate::text::spec_words;
use crate::text::count_words;
use crate::text::str_eq;

verus! {

/// One saved transcription, with its usage metadata.
#[derive(Debug, Clone)]
pub struct TranscriptionEntry {
    pub id: Option<i64>,
    pub text: String,
    pub timestamp: i64,
    pub duration_ms: Option<i64>,
    pub model: Option<String>,
    pub cost_cents: Option<i64>,
    pub mode: Option<String>,
}

/// One turn of the prompt conversation history.
#[derive(Debug, Clone)]
pub struct ConversationMessage {
    pub role: String,
    pub content: String,
    pub timestamp: i64,
}

/// Aggregated usage over a time range.
#[derive(Debug, Clone, PartialEq, Eq, Structural)]
pub struct StatsData {
    pub total_words: i64,
    pub total_transcriptions: i64,
    pub total_duration_ms: i64,
    pub total_cost_cents: i64,
}

/// One deferred work item waiting for connectivity.
#[derive(Debug, Clone)]
pub struct PendingQueueItem {
    pub id: i64,
    pub mode: String,
    pub audio_path: Option<String>,
    pub prompt_text: Option<String>,
    pub model: String,
    pub created_at: i64,
    pub retry_count: i64,
}

/// Whether an entry falls in the queried time range, both ends included.
pub open spec fn spec_in_range(e: TranscriptionEntry, from_ts: i64, to_ts: i64) -> bool {
    from_ts <= e.timestamp <= to_ts
}

/// Number of entries in range.
pub open spec fn spec_count(es: Seq<TranscriptionEntry>, from_ts: i64, to_ts: i64) -> int
    decreases es.len(),
{
    if es.len() == 0 {
        0
    } else {
        spec_count(es.drop_last(), from_ts, to_ts) + (if spec_in_range(es.last(), from_ts, to_ts) {
            1int
        } else {
            0int
        })
    }
}

/// Sum of the recorded durations of the entries in range; an entry
/// without one contributes nothing.
pub open spec fn spec_duration_sum(es: Seq<TranscriptionEntry>, from_ts: i64, to_ts: i64) -> int
    decreases es.len(),
{
    if es.len() == 0 {
        0
    } else {
        spec_duration_sum(es.drop_last(), from_ts, to_ts) + (if spec_in_range(
            es.last(),
            from_ts,
            to_ts,
        ) {
            match es.last().duration_ms {
                Some(d) => d as int,
                None => 0,
            }
        } else {
            0
        })
    }
}

/// Sum of the recorded costs of the entries in range.
pub open spec fn spec_cost_sum(es: Seq<TranscriptionEntry>, from_ts: i64, to_ts: i64) -> int
    decreases es.len(),
{
    if es.len() == 0 {
        0
    } else {
        spec_cost_sum(es.drop_last(), from_ts, to_ts) + (if spec_in_range(
            es.last(),
            from_ts,
            to_ts,
        ) {
            match es.last().cost_cents {
                Some(c) => c as int,
                None => 0,
            }
        } else {
            0
        })
    }
}

/// Total word count of the entries in range.
pub open spec fn spec_words_sum(es: Seq<TranscriptionEntry>, from_ts: i64, to_ts: i64) -> int
    decreases es.len(),
{
    if es.len() == 0 {
        0
    } else {
        spec_words_sum(es.drop_last(), from_ts, to_ts) + (if spec_in_range(
            es.last(),
            from_ts,
            to_ts,
        ) {
            spec_words(es.last().text@)
        } else {
            0
        })
    }
}

/// Aggregate the saved entries over `[from_ts, to_ts]`: how many fall in
/// the range, their words, their recorded duration and their recorded
/// cost.  The bounds keep the running sums inside the machine's integers.
pub fn compute_stats(entries: &Vec<TranscriptionEntry>, from_ts: i64, to_ts: i64) -> (s: StatsData)
    requires
        entries@.len() <= 0x1000_0000,
        i64::MIN <= spec_duration_sum(entries@, from_ts, to_ts) <= i64::MAX,
        i64::MIN <= spec_cost_sum(entries@, from_ts, to_ts) <= i64::MAX,
        spec_words_sum(entries@, from_ts, to_ts) <= i64::MAX,
    ensures
        s.total_transcriptions == spec_count(entries@, from_ts, to_ts),
        s.total_duration_ms == spec_duration_sum(entries@, from_ts, to_ts),
        s.total_cost_cents == spec_cost_sum(entries@, from_ts, to_ts),
        s.total_words == spec_words_sum(entries@, from_ts, to_ts),
{
    let ghost es = entries@;
    let n = entries.len();
    let mut count: i64 = 0;
    let mut duration: i128 = 0;
    let mut cost: i128 = 0;
    let mut words: i128 = 0;
    for i in 0..n
        invariant
            es == entries@,
            n == es.len(),
            n <= 0x1000_0000,
            count == spec_count(es.take(i as int), from_ts, to_ts),
            duration == spec_duration_sum(es.take(i as int), from_ts, to_ts),
            cost == spec_cost_sum(es.take(i as int), from_ts, to_ts),
            words == spec_words_sum(es.take(i as int), from_ts, to_ts),
            0 <= count <= i,
            -0x8000_0000_0000_0000 * (i as i128) <= duration
                <= 0x7fff_ffff_ffff_ffff * (i as i128),
            -0x8000_0000_0000_0000 * (i as i128) <= cost <= 0x7fff_ffff_ffff_ffff * (i as i128),
            0 <= words <= 0xffff_ffff_ffff_ffff * (i as i128),
    {
        proof {
            assert(es.take(i + 1).drop_last() =~= es.take(i as int));
            assert(es.take(i + 1).last() == es[i as int]);
        }
        let e = &entries[i];
        if from_ts <= e.timestamp && e.timestamp <= to_ts {
            count = count + 1;
            duration = duration + (match e.duration_ms {
                Some(d) => d,
                None => 0,
            }) as i128;
            cost = cost + (match e.cost_cents {
                Some(c) => c,
                None => 0,
            }) as i128;
            let w = count_words(e.text.as_str());
            proof {
                assert(spec_words(e.text@) >= 0);
            }
            words = words + w as i128;
        }
    }
    proof {
        assert(es.take(n as int) =~= es);
    }
    StatsData {
        total_words: words as i64,
        total_transcriptions: count,
        total_duration_ms: duration as i64,
        total_cost_cents: cost as i64,
    }
}

/// The estimated cost of a record, in hundredths of a cent: audio models
/// bill by duration at six tenths of a cent per minute; text models bill
/// by output length at four bytes to the token.
pub open spec fn spec_cost_cents(model: Seq<char>, duration_ms: Option<i64>, text_bytes: int) -> int {
    if model == "whisper"@ || model == "realtime"@ {
        tdiv(
            match duration_ms {
                Some(d) => d as int,
                None => 0,
            },
            1000,
        )
    } else if model == "gpt-4o-mini"@ {
        text_bytes * 3 / 2000
    } else if model == "gpt-4.1"@ {
        text_bytes / 50
    } else {
        0
    }
}

/// Estimate a record's cost in hundredths of a cent from its model, its
/// audio duration and its text.
pub fn estimate_cost_cents(model: &str, duration_ms: Option<i64>, text: &str) -> (r: i64)
    requires
        text.spec_bytes().len() <= usize::MAX,
    ensures
        r == spec_cost_cents(model@, duration_ms, text.spec_bytes().len() as int),
{
    if str_eq(model, "whisper") || str_eq(model, "realtime") {
        let d: i128 = (match duration_ms {
            Some(d) => d,
            None => 0,
        }) as i128;
        if d >= 0 {
            proof {
                assert(d / 1000 <= d) by (nonlinear_arith)
                    requires
                        d >= 0,
                ;
            }
            (d / 1000) as i64
        } else {
            proof {
                assert(0 <= (-d) / 1000 <= -d) by (nonlinear_arith)
                    requires
                        d < 0,
                ;
            }
            (-((-d) / 1000)) as i64
        }
    } else if str_eq(model, "gpt-4o-mini") {
        let len = text.len() as u128;
        proof {
            assert(len * 3 / 2000 <= len) by (nonlinear_arith)
                requires
                    len >= 0,
            ;
        }
        (len * 3 / 2000) as i64
    } else if str_eq(model, "gpt-4.1") {
        let len = text.len() as u128;
        proof {
            assert(len / 50 <= len) by (nonlinear_arith)
                requires
                    len >= 0,
            ;
        }
        (len / 50) as i64
    } else {
        0
    }
}

/// How long a conversation may sit idle before its history is cleared.
pub const CONVERSATION_IDLE_MS: i64 = 1800000;

/// Whether the conversation history has gone stale: a last message older
/// than the idle bound.  No history is never stale.
pub fn conversation_expired(last_ts: Option<i64>, now_ms: i64) -> (r: bool)
    ensures
        r == match last_ts {
            Some(t) => now_ms - t > CONVERSATION_IDLE_MS,
            None => false,
        },
{
    match last_ts {
        Some(t) => (now_ms as i128) - (t as i128) > CONVERSATION_IDLE_MS as i128,
        None => false,
    }
}

/// How many conversation turns are replayed to the prompt model.
pub const MAX_HISTORY_PAIRS: usize = 6;

} // verus!
