//! Sentence-bounded text chunking for spoken playback.
//!
//! Long responses are read aloud piece by piece: the text splits at
//! sentence-ending punctuation followed by a space, a newline or the end,
//! and short sentences regroup into chunks of at most 400 bytes, one
//! space between sentences.  Text without any sentence boundary travels
//! whole.

use vstd::prelude::*;
use vstd::string::StringExecFns;
use vstd::string::StringSliceAdditionalSpecFns;
use vstd::string::StrSliceExecFns;
use vstd::utf8::encode_utf8;
use crate::text::spec_trim;
use crate::text::str_to_chars;
use crate::text::trimmed;

verus! {

/// Byte budget of one chunk.
pub const CHUNK_MAX_BYTES: usize = 400;

/// The UTF-8 byte length of a text.
pub open spec fn byte_len(s: Seq<char>) -> int {
    encode_utf8(s).len() as int
}

proof fn lemma_encode_utf8_concat(a: Seq<char>, b: Seq<char>)
    ensures
        encode_utf8(a + b) == encode_utf8(a) + encode_utf8(b),
    decreases a.len(),
{
    if a.len() == 0 {
        assert(a + b =~= b);
        assert(encode_utf8(a) + encode_utf8(b) =~= encode_utf8(b));
    } else {
        assert((a + b).drop_first() =~= a.drop_first() + b);
        assert((a + b)[0] == a[0]);
        lemma_encode_utf8_concat(a.drop_first(), b);
        assert(encode_utf8(a + b) =~= encode_utf8(a) + encode_utf8(b));
    }
}

/// A subrange's byte image is no longer than the whole's.
proof fn lemma_byte_len_subrange(s: Seq<char>, x: int, y: int)
    requires
        0 <= x <= y <= s.len(),
    ensures
        byte_len(s.subrange(x, y)) <= byte_len(s),
{
    let a = s.subrange(0, x);
    let b = s.subrange(x, y);
    let c = s.subrange(y, s.len() as int);
    assert(s =~= (a + b) + c);
    lemma_encode_utf8_concat(a + b, c);
    lemma_encode_utf8_concat(a, b);
}

/// Every character encodes to at least one byte.
proof fn lemma_byte_len_ge_char_len(s: Seq<char>)
    ensures
        byte_len(s) >= s.len(),
    decreases s.len(),
{
    if s.len() > 0 {
        lemma_byte_len_ge_char_len(s.drop_first());
    }
}

proof fn lemma_first_non_blank_bounds(s: Seq<char>, i: int)
    requires
        0 <= i <= s.len(),
    ensures
        i <= crate::text::spec_first_non_blank(s, i) <= s.len(),
        crate::text::spec_first_non_blank(s, i) < s.len() ==> !crate::text::is_blank(
            s[crate::text::spec_first_non_blank(s, i)],
        ),
    decreases s.len() - i,
{
    if i < s.len() && crate::text::is_blank(s[i]) {
        lemma_first_non_blank_bounds(s, i + 1);
    }
}

proof fn lemma_trim_end_bounds(s: Seq<char>, j: int, a: int)
    requires
        0 <= a < s.len(),
        !crate::text::is_blank(s[a]),
        a + 1 <= j <= s.len(),
    ensures
        a + 1 <= crate::text::spec_trim_end(s, j) <= j,
    decreases j,
{
    if 0 < j <= s.len() && crate::text::is_blank(s[j - 1]) {
        lemma_trim_end_bounds(s, j - 1, a);
    }
}

/// Trimming never lengthens the byte image.
proof fn lemma_trim_byte_len(q: Seq<char>)
    ensures
        byte_len(spec_trim(q)) <= byte_len(q),
        byte_len(spec_trim(q)) >= 0,
{
    lemma_first_non_blank_bounds(q, 0);
    let a = crate::text::spec_first_non_blank(q, 0);
    if a == q.len() {
        assert(encode_utf8(spec_trim(q)).len() == 0);
    } else {
        lemma_trim_end_bounds(q, q.len() as int, a);
        lemma_byte_len_subrange(q, a, crate::text::spec_trim_end(q, q.len() as int));
    }
}

/// Whether position `i` of the trimmed text ends a sentence: a
/// sentence-ending mark with a space, a newline or nothing after it.
pub open spec fn ends_sentence(t: Seq<char>, i: int) -> bool {
    (t[i] == '.' || t[i] == '!' || t[i] == '?') && (i + 1 >= t.len() || t[i + 1] == ' ' || t[i + 1]
        == '\n')
}

/// The sentences of `t` from position `i` on, the open sentence having
/// started at `start`; each sentence is trimmed, and empty ones drop out.
pub open spec fn spec_sentences(t: Seq<char>, start: int, i: int) -> Seq<Seq<char>>
    recommends
        0 <= start <= i <= t.len(),
    decreases t.len() - i,
{
    if i < 0 || i >= t.len() {
        let last = spec_trim(t.subrange(start, t.len() as int));
        if last.len() > 0 {
            seq![last]
        } else {
            Seq::empty()
        }
    } else if ends_sentence(t, i) {
        let sent = spec_trim(t.subrange(start, i + 1));
        (if sent.len() > 0 {
            seq![sent]
        } else {
            Seq::empty()
        }) + spec_sentences(t, i + 1, i + 1)
    } else {
        spec_sentences(t, start, i + 1)
    }
}

/// Regroup sentences into chunks: a sentence joins the open chunk with a
/// space while the sum stays within the byte budget, and starts a new
/// chunk otherwise.
pub open spec fn spec_group(sents: Seq<Seq<char>>, k: int, chunk: Seq<char>) -> Seq<Seq<char>>
    decreases sents.len() - k,
{
    if k < 0 || k >= sents.len() {
        if chunk.len() > 0 {
            seq![chunk]
        } else {
            Seq::empty()
        }
    } else if chunk.len() == 0 {
        spec_group(sents, k + 1, sents[k])
    } else if byte_len(chunk) + byte_len(sents[k]) + 1 <= CHUNK_MAX_BYTES {
        spec_group(sents, k + 1, chunk + seq![' '] + sents[k])
    } else {
        seq![chunk] + spec_group(sents, k + 1, sents[k])
    }
}

/// What chunking yields: the trimmed text's sentences regrouped under
/// the byte budget; empty text yields nothing, and text yielding no
/// sentence travels whole.
pub open spec fn spec_tts_chunks(s: Seq<char>) -> Seq<Seq<char>> {
    let t = spec_trim(s);
    if t.len() == 0 {
        Seq::empty()
    } else {
        let cs = spec_group(spec_sentences(t, 0, 0), 0, Seq::empty());
        if cs.len() == 0 {
            seq![t]
        } else {
            cs
        }
    }
}

/// Split a text into chunks for piecewise spoken playback.
///
/// The byte-length bound keeps the budget comparison exact on the
/// machine; any text that fits in memory with room to spare meets it.
pub fn split_into_tts_chunks(text: &str) -> (chunks: Vec<String>)
    requires
        text.spec_bytes().len() + 401 <= usize::MAX,
    ensures
        chunks@.map_values(|c: String| c@) == spec_tts_chunks(text@),
{
    let ghost sv = text@;
    let t = trimmed(text);
    if t.as_str().unicode_len() == 0 {
        let chunks: Vec<String> = Vec::new();
        proof {
            assert(chunks@.map_values(|c: String| c@) =~= spec_tts_chunks(sv));
        }
        return chunks;
    }
    proof {
        lemma_trim_byte_len(sv);
        lemma_byte_len_ge_char_len(sv);
        lemma_byte_len_ge_char_len(t@);
    }
    let sentences = split_sentences(&t);
    let chunks = group_sentences(&sentences, Ghost(t@), Ghost(sv));
    if chunks.len() == 0 {
        let mut whole: Vec<String> = Vec::new();
        whole.push(t);
        proof {
            assert(whole@.map_values(|c: String| c@) =~= spec_tts_chunks(sv));
        }
        whole
    } else {
        chunks
    }
}

/// Split the trimmed text into its sentences.
fn split_sentences(t: &String) -> (sents: Vec<String>)
    ensures
        sents@.map_values(|c: String| c@) == spec_sentences(t@, 0, 0),
        forall|k: int|
            0 <= k < sents@.len() ==> byte_len(#[trigger] sents@[k]@) <= byte_len(t@)
                && sents@[k]@.len() > 0,
{
    let ghost tv = t@;
    let v = str_to_chars(t.as_str());
    let n = v.len();
    let mut sents: Vec<String> = Vec::new();
    let mut start: usize = 0;
    for i in 0..n
        invariant
            tv == t@,
            v@ == tv,
            n == tv.len(),
            0 <= start <= i <= n,
            spec_sentences(tv, 0, 0) == sents@.map_values(|c: String| c@) + spec_sentences(
                tv,
                start as int,
                i as int,
            ),
            forall|k: int|
                0 <= k < sents@.len() ==> byte_len(#[trigger] sents@[k]@) <= byte_len(tv)
                    && sents@[k]@.len() > 0,
    {
        let c = v[i];
        let boundary = (c == '.' || c == '!' || c == '?') && (i + 1 >= n || v[i + 1] == ' ' || v[i
            + 1] == '\n');
        if boundary {
            let raw = t.as_str().substring_char(start, i + 1);
            let sent = trimmed(raw);
            proof {
                lemma_trim_byte_len(tv.subrange(start as int, i as int + 1));
                lemma_byte_len_subrange(tv, start as int, i as int + 1);
            }
            let ghost pre = sents@.map_values(|c: String| c@);
            if sent.as_str().unicode_len() > 0 {
                sents.push(sent);
                proof {
                    assert(sents@.map_values(|c: String| c@) =~= pre + seq![
                        spec_trim(tv.subrange(start as int, i as int + 1)),
                    ]);
                }
            } else {
                proof {
                    assert(pre + Seq::<Seq<char>>::empty() =~= pre);
                }
            }
            start = i + 1;
        }
    }
    let raw = t.as_str().substring_char(start, n);
    let last = trimmed(raw);
    proof {
        lemma_trim_byte_len(tv.subrange(start as int, n as int));
        lemma_byte_len_subrange(tv, start as int, n as int);
    }
    let ghost pre = sents@.map_values(|c: String| c@);
    if last.as_str().unicode_len() > 0 {
        sents.push(last);
        proof {
            assert(sents@.map_values(|c: String| c@) =~= pre + seq![
                spec_trim(tv.subrange(start as int, n as int)),
            ]);
        }
    } else {
        proof {
            assert(pre + Seq::<Seq<char>>::empty() =~= pre);
        }
    }
    sents
}

/// Regroup sentences under the byte budget.
fn group_sentences(sents: &Vec<String>, t: Ghost<Seq<char>>, whole: Ghost<Seq<char>>) -> (out:
    Vec<String>)
    requires
        forall|k: int|
            0 <= k < sents@.len() ==> byte_len(#[trigger] sents@[k]@) <= byte_len(t@),
        byte_len(t@) <= byte_len(whole@),
        byte_len(whole@) + 401 <= usize::MAX,
        t@.len() <= encode_utf8(t@).len(),
        whole@.len() <= encode_utf8(whole@).len(),
    ensures
        out@.map_values(|c: String| c@) == spec_group(
            sents@.map_values(|c: String| c@),
            0,
            Seq::empty(),
        ),
{
    let ghost sv = sents@.map_values(|c: String| c@);
    let n = sents.len();
    let mut out: Vec<String> = Vec::new();
    let mut chunk = String::new();
    for k in 0..n
        invariant
            sv == sents@.map_values(|c: String| c@),
            n == sv.len(),
            forall|j: int| 0 <= j < sv.len() ==> byte_len(#[trigger] sv[j]) <= byte_len(t@),
            byte_len(t@) <= byte_len(whole@),
            byte_len(whole@) + 401 <= usize::MAX,
            0 <= byte_len(chunk@) <= byte_len(whole@) + 400,
            chunk@.len() <= byte_len(chunk@),
            spec_group(sv, 0, Seq::empty()) == out@.map_values(|c: String| c@) + spec_group(
                sv,
                k as int,
                chunk@,
            ),
    {
        proof {
            assert(sv[k as int] == sents@[k as int]@);
            lemma_byte_len_ge_char_len(chunk@);
            lemma_byte_len_ge_char_len(sents@[k as int]@);
        }
        let sent = &sents[k];
        if chunk.as_str().unicode_len() == 0 {
            chunk = sent.clone();
        } else if (chunk.as_str().len() as u128) + (sent.as_str().len() as u128) + 1
            <= CHUNK_MAX_BYTES as u128 {
            proof {
                reveal_strlit(" ");
                assert(" "@ =~= seq![' ']);
                lemma_encode_utf8_concat(chunk@ + " "@, sents@[k as int]@);
                lemma_encode_utf8_concat(chunk@, " "@);
                assert(encode_utf8(seq![' ']).len() == 1) by {
                    let sp = seq![' '];
                    assert(sp.drop_first() =~= Seq::<char>::empty());
                    assert(sp[0] == ' ');
                    assert(' ' as u32 == 32);
                    assert(vstd::utf8::has_width_1_encoding(32));
                    assert(vstd::utf8::encode_scalar(32).len() == 1);
                    assert(encode_utf8(sp) =~= vstd::utf8::encode_scalar(32) + encode_utf8(
                        sp.drop_first(),
                    ));
                }
                lemma_byte_len_ge_char_len(chunk@ + seq![' '] + sents@[k as int]@);
            }
            chunk.append(" ");
            chunk.append(sent.as_str());
        } else {
            let ghost pre = out@.map_values(|c: String| c@);
            let ghost cv = chunk@;
            out.push(chunk);
            chunk = sent.clone();
            proof {
                assert(out@.map_values(|c: String| c@) =~= pre + seq![cv]);
            }
        }
    }
    if chunk.as_str().unicode_len() > 0 {
        let ghost pre = out@.map_values(|c: String| c@);
        let ghost cv = chunk@;
        out.push(chunk);
        proof {
            assert(out@.map_values(|c: String| c@) =~= pre + seq![cv]);
        }
    } else {
        proof {
            assert(out@.map_values(|c: String| c@) + Seq::<Seq<char>>::empty() =~= out@.map_values(
                |c: String| c@,
            ));
        }
    }
    out
}

} // verus!
