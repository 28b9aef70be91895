//! Small text helpers: character-level string building, comparison, and
//! decimal rendering, shared by the message builders and the event parser.

use vstd::prelude::*;
use vstd::string::StrSliceExecFns;

verus! {

/// Relies on `String::push`: appends the given character to the end of the
/// string.
#[verifier::external_body]
pub(crate) fn push_char(s: &mut String, c: char)
    ensures
        final(s)@ == old(s)@.push(c),
{
    s.push(c)
}

/// Relies on `char::from_u32`: returns the character for any value that is
/// a Unicode scalar, that is, anything but the surrogate range.
#[verifier::external_body]
pub(crate) fn scalar_to_char(u: u32) -> (c: char)
    requires
        u < 0xD800 || (0xE000 <= u < 0x11_0000),
    ensures
        c == u as char,
{
    match char::from_u32(u) {
        Some(c) => c,
        None => ' ',
    }
}

/// Character-by-character string equality, giving `==` on the views.
pub fn str_eq(a: &str, b: &str) -> (r: bool)
    ensures
        r == (a@ == b@),
{
    let na = a.unicode_len();
    let nb = b.unicode_len();
    if na != nb {
        return false;
    }
    for i in 0..na
        invariant
            na == a@.len(),
            na == b@.len(),
            forall|j: int| 0 <= j < i ==> a@[j] == b@[j],
    {
        if a.get_char(i) != b.get_char(i) {
            return false;
        }
    }
    proof {
        assert(a@ =~= b@);
    }
    true
}

/// The characters of a string, as an indexable vector.
pub fn str_to_chars(s: &str) -> (v: Vec<char>)
    ensures
        v@ == s@,
{
    let n = s.unicode_len();
    let mut v: Vec<char> = Vec::new();
    for i in 0..n
        invariant
            n == s@.len(),
            v@ == s@.take(i as int),
    {
        v.push(s.get_char(i));
    }
    proof {
        assert(v@ =~= s@);
    }
    v
}

/// The decimal digit character for `d`.
pub open spec fn digit_char(d: int) -> char {
    ((48 + d) as u8) as char
}

/// Decimal rendering of `n`, most significant digit first, no leading
/// zeros except for zero itself.
pub open spec fn dec_digits(n: int) -> Seq<char>
    recommends
        n >= 0,
    decreases n,
{
    if n < 10 {
        seq![digit_char(n)]
    } else {
        dec_digits(n / 10).push(digit_char(n % 10))
    }
}

/// Render `n` in decimal.
pub fn u64_to_dec(n: u64) -> (r: String)
    ensures
        r@ == dec_digits(n as int),
    decreases n,
{
    if n < 10 {
        let mut r = String::new();
        push_char(&mut r, (48 + n as u8) as char);
        proof {
            assert(r@ =~= dec_digits(n as int));
        }
        r
    } else {
        let mut r = u64_to_dec(n / 10);
        push_char(&mut r, (48 + (n % 10) as u8) as char);
        r
    }
}

/// Two-digit decimal rendering, leading zero kept.
pub open spec fn two_digits(n: int) -> Seq<char> {
    seq![digit_char(n / 10), digit_char(n % 10)]
}

/// Three-digit decimal rendering, leading zeros kept.
pub open spec fn three_digits(n: int) -> Seq<char> {
    seq![digit_char(n / 100), digit_char((n / 10) % 10), digit_char(n % 10)]
}

/// The log-line clock label for a Unix time in milliseconds:
/// `[hh:mm:ss.mmm]`, the hours taken within the day.
pub open spec fn spec_clock_label(unix_ms: int) -> Seq<char> {
    let secs = unix_ms / 1000;
    let millis = unix_ms % 1000;
    seq!['['] + two_digits((secs % 86400) / 3600) + seq![':'] + two_digits((secs % 3600) / 60)
        + seq![':'] + two_digits(secs % 60) + seq!['.'] + three_digits(millis) + seq![']']
}

fn push_two_digits(r: &mut String, n: u64)
    requires
        n < 100,
    ensures
        final(r)@ == old(r)@ + two_digits(n as int),
{
    let ghost pre = r@;
    push_char(r, (48 + (n / 10) as u8) as char);
    push_char(r, (48 + (n % 10) as u8) as char);
    proof {
        assert(r@ =~= pre + two_digits(n as int));
    }
}

/// Format a Unix time in milliseconds as the clock label of a log line.
pub fn clock_label(unix_ms: u64) -> (r: String)
    ensures
        r@ == spec_clock_label(unix_ms as int),
{
    let secs = unix_ms / 1000;
    let millis = unix_ms % 1000;
    let hours = (secs % 86400) / 3600;
    let minutes = (secs % 3600) / 60;
    let seconds = secs % 60;
    let mut r = String::new();
    push_char(&mut r, '[');
    push_two_digits(&mut r, hours);
    push_char(&mut r, ':');
    push_two_digits(&mut r, minutes);
    push_char(&mut r, ':');
    push_two_digits(&mut r, seconds);
    push_char(&mut r, '.');
    push_char(&mut r, (48 + (millis / 100) as u8) as char);
    push_char(&mut r, (48 + ((millis / 10) % 10) as u8) as char);
    push_char(&mut r, (48 + (millis % 10) as u8) as char);
    push_char(&mut r, ']');
    proof {
        assert(r@ =~= spec_clock_label(unix_ms as int));
    }
    r
}

/// A word separator, as words are counted for usage statistics.
pub open spec fn is_word_sep(c: char) -> bool {
    c == ' ' || c == '\t' || c == '\n' || c == '\r'
}

/// Number of words in the text from `i` on, `in_word` telling whether a
/// word was already open at `i`.
pub open spec fn spec_word_count(s: Seq<char>, i: int, in_word: bool) -> int
    decreases s.len() - i,
{
    if i < 0 || i >= s.len() {
        0
    } else if is_word_sep(s[i]) {
        spec_word_count(s, i + 1, false)
    } else {
        (if in_word {
            0int
        } else {
            1int
        }) + spec_word_count(s, i + 1, true)
    }
}

/// Number of whitespace-separated words in the text.
pub open spec fn spec_words(s: Seq<char>) -> int {
    spec_word_count(s, 0, false)
}

/// Count the whitespace-separated words of a text.
pub fn count_words(s: &str) -> (n: usize)
    ensures
        n == spec_words(s@),
{
    let v = str_to_chars(s);
    let len = v.len();
    let mut acc: usize = 0;
    let mut in_word = false;
    for i in 0..len
        invariant
            v@ == s@,
            len == s@.len(),
            acc <= i,
            spec_words(s@) == acc + spec_word_count(s@, i as int, in_word),
    {
        let c = v[i];
        if c == ' ' || c == '\t' || c == '\n' || c == '\r' {
            in_word = false;
        } else {
            if !in_word {
                acc = acc + 1;
            }
            in_word = true;
        }
    }
    acc
}

/// Whitespace as trimmed from a text's ends.
pub open spec fn is_blank(c: char) -> bool {
    c == ' ' || c == '\t' || c == '\n' || c == '\r'
}

/// First index at or after `i` holding no blank.
pub open spec fn spec_first_non_blank(s: Seq<char>, i: int) -> int
    decreases s.len() - i,
{
    if 0 <= i < s.len() && is_blank(s[i]) {
        spec_first_non_blank(s, i + 1)
    } else {
        i
    }
}

/// Last index at or before `j` ending a non-blank prefix.
pub open spec fn spec_trim_end(s: Seq<char>, j: int) -> int
    decreases j,
{
    if 0 < j <= s.len() && is_blank(s[j - 1]) {
        spec_trim_end(s, j - 1)
    } else {
        j
    }
}

/// The text with blanks removed from both ends.
pub open spec fn spec_trim(s: Seq<char>) -> Seq<char> {
    let a = spec_first_non_blank(s, 0);
    if a == s.len() {
        Seq::empty()
    } else {
        s.subrange(a, spec_trim_end(s, s.len() as int))
    }
}

fn is_blank_char(c: char) -> (r: bool)
    ensures
        r == is_blank(c),
{
    c == ' ' || c == '\t' || c == '\n' || c == '\r'
}

/// Remove blanks from both ends of a name.
pub fn trimmed(s: &str) -> (r: String)
    ensures
        r@ == spec_trim(s@),
{
    let ghost sv = s@;
    let v = str_to_chars(s);
    let n = v.len();
    let mut a: usize = 0;
    while a < n && is_blank_char(v[a])
        invariant
            sv == s@,
            v@ == sv,
            n == sv.len(),
            0 <= a <= n,
            spec_first_non_blank(sv, 0) == spec_first_non_blank(sv, a as int),
        decreases n - a,
    {
        a = a + 1;
    }
    if a == n {
        return String::new();
    }
    let mut b: usize = n;
    while b > a && is_blank_char(v[b - 1])
        invariant
            sv == s@,
            v@ == sv,
            n == sv.len(),
            a < n,
            !is_blank(sv[a as int]),
            a < b <= n,
            spec_trim_end(sv, n as int) == spec_trim_end(sv, b as int),
        decreases b,
    {
        b = b - 1;
    }
    let sub = s.substring_char(a, b);
    String::from_str(sub)
}

} // verus!
