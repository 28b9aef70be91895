//! A scanner for the JSON text frames the transcription service sends.
//!
//! The pipeline needs little of a frame: the top-level `type` field, one
//! payload string field per event type, and the `message` inside an
//! `error` object.  This module validates a frame as one JSON object —
//! strings with their escapes, numbers, nested objects and arrays up to a
//! fixed depth — and looks string fields up by key, the last occurrence
//! winning as it does in a map built by insertion.
//!
//! The specification functions define the accepted grammar; the executable
//! scanner is proved to return exactly what they describe.

use vstd::prelude::*;
use crate::text::push_char;
use crate::text::scalar_to_char;
use crate::text::str_eq;

verus! {

/// Nesting budget for objects and arrays; frames deeper than this are
/// rejected, as the reference parsers of the ecosystem do.
pub const DEPTH_LIMIT: u32 = 128;

/// JSON insignificant whitespace.
pub open spec fn is_ws(c: char) -> bool {
    c == ' ' || c == '\t' || c == '\n' || c == '\r'
}

/// A decimal digit.
pub open spec fn is_digit(c: char) -> bool {
    48 <= c as u32 <= 57
}

/// First index at or after `i` holding no whitespace.
pub open spec fn spec_skip_ws(s: Seq<char>, i: int) -> int
    recommends
        0 <= i <= s.len(),
    decreases s.len() - i,
{
    if 0 <= i < s.len() && is_ws(s[i]) {
        spec_skip_ws(s, i + 1)
    } else {
        i
    }
}

/// First index at or after `i` holding no digit.
pub open spec fn spec_skip_digits(s: Seq<char>, i: int) -> int
    recommends
        0 <= i <= s.len(),
    decreases s.len() - i,
{
    if 0 <= i < s.len() && is_digit(s[i]) {
        spec_skip_digits(s, i + 1)
    } else {
        i
    }
}

/// Value of a hexadecimal digit.
pub open spec fn hex_val(c: char) -> Option<u32> {
    let u = c as u32;
    if 48 <= u <= 57 {
        Some((u - 48) as u32)
    } else if 65 <= u <= 70 {
        Some((u - 55) as u32)
    } else if 97 <= u <= 102 {
        Some((u - 87) as u32)
    } else {
        None
    }
}

/// The four hexadecimal digits at `i`, as one value.
pub open spec fn spec_hex4(s: Seq<char>, i: int) -> Option<u32> {
    if i < 0 || i + 4 > s.len() {
        None
    } else {
        match (hex_val(s[i]), hex_val(s[i + 1]), hex_val(s[i + 2]), hex_val(s[i + 3])) {
            (Some(a), Some(b), Some(c), Some(d)) => Some(
                (a * 0x1000 + b * 0x100 + c * 0x10 + d) as u32,
            ),
            _ => None,
        }
    }
}

/// What a single-character escape stands for.
pub open spec fn spec_simple_escape(c: char) -> Option<char> {
    if c == '"' {
        Some('"')
    } else if c == '\\' {
        Some('\\')
    } else if c == '/' {
        Some('/')
    } else if c == 'b' {
        Some((8 as u8) as char)
    } else if c == 'f' {
        Some((12 as u8) as char)
    } else if c == 'n' {
        Some('\n')
    } else if c == 'r' {
        Some('\r')
    } else if c == 't' {
        Some('\t')
    } else {
        None
    }
}

/// A parsed string literal: its unescaped content and the index after the
/// closing quote.
pub struct StrParse {
    pub content: Seq<char>,
    pub end: int,
}

/// Parse the body of a string literal from `i`, the index after the
/// opening quote, to its closing quote: raw characters above the control
/// range pass through, the single-character escapes map to their meaning,
/// and `\u` escapes carry a scalar directly or as a surrogate pair.
pub open spec fn spec_string_body(s: Seq<char>, i: int) -> Option<StrParse>
    decreases s.len() - i,
{
    if i < 0 || i >= s.len() {
        None
    } else if s[i] == '"' {
        Some(StrParse { content: Seq::empty(), end: i + 1 })
    } else if s[i] == '\\' {
        if i + 1 >= s.len() {
            None
        } else if s[i + 1] == 'u' {
            match spec_hex4(s, i + 2) {
                None => None,
                Some(code) => if 0xD800 <= code < 0xDC00 {
                    if i + 12 > s.len() {
                        None
                    } else if s[i + 6] == '\\' && s[i + 7] == 'u' {
                        match spec_hex4(s, i + 8) {
                            None => None,
                            Some(lo) => if 0xDC00 <= lo < 0xE000 {
                                match spec_string_body(s, i + 12) {
                                    None => None,
                                    Some(r) => Some(
                                        StrParse {
                                            content: seq![
                                                (0x10000 + (code - 0xD800) * 0x400 + (lo
                                                    - 0xDC00)) as char,
                                            ] + r.content,
                                            end: r.end,
                                        },
                                    ),
                                }
                            } else {
                                None
                            },
                        }
                    } else {
                        None
                    }
                } else if 0xDC00 <= code < 0xE000 {
                    None
                } else {
                    match spec_string_body(s, i + 6) {
                        None => None,
                        Some(r) => Some(
                            StrParse { content: seq![code as char] + r.content, end: r.end },
                        ),
                    }
                },
            }
        } else {
            match spec_simple_escape(s[i + 1]) {
                None => None,
                Some(u) => match spec_string_body(s, i + 2) {
                    None => None,
                    Some(r) => Some(StrParse { content: seq![u] + r.content, end: r.end }),
                },
            }
        }
    } else if (s[i] as u32) < 0x20 {
        None
    } else {
        match spec_string_body(s, i + 1) {
            None => None,
            Some(r) => Some(StrParse { content: seq![s[i]] + r.content, end: r.end }),
        }
    }
}

/// Skip a number starting at `i`: an optional minus, digits, an optional
/// fraction, an optional exponent.
pub open spec fn spec_skip_number(s: Seq<char>, i: int) -> Option<int> {
    if i < 0 || i >= s.len() {
        None
    } else {
        let j0 = if s[i] == '-' {
            i + 1
        } else {
            i
        };
        if j0 >= s.len() || !is_digit(s[j0]) {
            None
        } else {
            let j1 = spec_skip_digits(s, j0);
            let j2 = if j1 < s.len() && s[j1] == '.' {
                if j1 + 1 < s.len() && is_digit(s[j1 + 1]) {
                    spec_skip_digits(s, j1 + 1)
                } else {
                    -1
                }
            } else {
                j1
            };
            if j2 < 0 {
                None
            } else {
                if j2 < s.len() && (s[j2] == 'e' || s[j2] == 'E') {
                    let j3 = if j2 + 1 < s.len() && (s[j2 + 1] == '+' || s[j2 + 1] == '-') {
                        j2 + 2
                    } else {
                        j2 + 1
                    };
                    if j3 < s.len() && is_digit(s[j3]) {
                        Some(spec_skip_digits(s, j3))
                    } else {
                        None
                    }
                } else {
                    Some(j2)
                }
            }
        }
    }
}

/// A scan of an object's members: the index after the closing brace, and
/// the value position of the last member whose key matched, if any.
pub struct MemberScan {
    pub end: int,
    pub found: Option<int>,
}

/// Skip one JSON value starting at `i` with nesting budget `d`.
pub open spec fn spec_skip_value(s: Seq<char>, i: int, d: nat) -> Option<int>
    decreases d, s.len() - i, 0int,
{
    if i < 0 || i >= s.len() {
        None
    } else if s[i] == '"' {
        match spec_string_body(s, i + 1) {
            None => None,
            Some(r) => Some(r.end),
        }
    } else if s[i] == '{' {
        if d == 0 {
            None
        } else {
            match spec_object_members(s, i + 1, Seq::empty(), (d - 1) as nat) {
                None => None,
                Some(m) => Some(m.end),
            }
        }
    } else if s[i] == '[' {
        if d == 0 {
            None
        } else {
            spec_array_items(s, i + 1, (d - 1) as nat)
        }
    } else if s[i] == 't' {
        if i + 4 <= s.len() && s[i + 1] == 'r' && s[i + 2] == 'u' && s[i + 3] == 'e' {
            Some(i + 4)
        } else {
            None
        }
    } else if s[i] == 'f' {
        if i + 5 <= s.len() && s[i + 1] == 'a' && s[i + 2] == 'l' && s[i + 3] == 's' && s[i + 4]
            == 'e' {
            Some(i + 5)
        } else {
            None
        }
    } else if s[i] == 'n' {
        if i + 4 <= s.len() && s[i + 1] == 'u' && s[i + 2] == 'l' && s[i + 3] == 'l' {
            Some(i + 4)
        } else {
            None
        }
    } else {
        spec_skip_number(s, i)
    }
}

/// Scan an object's members from `i`, the index after the opening brace,
/// remembering where the value of the last member keyed `key` starts.
pub open spec fn spec_object_members(s: Seq<char>, i: int, key: Seq<char>, d: nat) -> Option<
    MemberScan,
>
    decreases d, s.len() - i, 2int,
{
    if i < 0 || i > s.len() {
        None
    } else {
        let j = spec_skip_ws(s, i);
        if j < i || j >= s.len() {
            None
        } else if s[j] == '}' {
            Some(MemberScan { end: j + 1, found: None })
        } else {
            spec_object_pairs(s, j, key, d)
        }
    }
}

/// Scan the members of an object from `i`, positioned at the opening quote
/// of a key.
pub open spec fn spec_object_pairs(s: Seq<char>, i: int, key: Seq<char>, d: nat) -> Option<
    MemberScan,
>
    decreases d, s.len() - i, 1int,
{
    if i < 0 || i >= s.len() || s[i] != '"' {
        None
    } else {
        match spec_string_body(s, i + 1) {
            None => None,
            Some(k) => {
                let j2 = spec_skip_ws(s, k.end);
                if k.end <= i || j2 < k.end || j2 >= s.len() || s[j2] != ':' {
                    None
                } else {
                    let v0 = spec_skip_ws(s, j2 + 1);
                    if v0 < j2 + 1 || v0 > s.len() {
                        None
                    } else {
                        match spec_skip_value(s, v0, d) {
                            None => None,
                            Some(e2) => {
                                let found_here: Option<int> = if k.content == key {
                                    Some(v0)
                                } else {
                                    None
                                };
                                let j3 = spec_skip_ws(s, e2);
                                if e2 <= i || j3 < e2 || j3 >= s.len() {
                                    None
                                } else if s[j3] == '}' {
                                    Some(MemberScan { end: j3 + 1, found: found_here })
                                } else if s[j3] == ',' {
                                    let j4 = spec_skip_ws(s, j3 + 1);
                                    if j4 <= i || j4 > s.len() {
                                        None
                                    } else {
                                        match spec_object_pairs(s, j4, key, d) {
                                            None => None,
                                            Some(rest) => Some(
                                                MemberScan {
                                                    end: rest.end,
                                                    found: if rest.found is Some {
                                                        rest.found
                                                    } else {
                                                        found_here
                                                    },
                                                },
                                            ),
                                        }
                                    }
                                } else {
                                    None
                                }
                            },
                        }
                    }
                }
            },
        }
    }
}

/// Skip an array's items from `i`, the index after the opening bracket,
/// to the index after the closing bracket.
pub open spec fn spec_array_items(s: Seq<char>, i: int, d: nat) -> Option<int>
    decreases d, s.len() - i, 2int,
{
    if i < 0 || i > s.len() {
        None
    } else {
        let j = spec_skip_ws(s, i);
        if j < i || j >= s.len() {
            None
        } else if s[j] == ']' {
            Some(j + 1)
        } else {
            spec_array_elems(s, j, d)
        }
    }
}

/// Skip array elements from `i`, positioned at the start of an element.
pub open spec fn spec_array_elems(s: Seq<char>, i: int, d: nat) -> Option<int>
    decreases d, s.len() - i, 1int,
{
    if i < 0 || i >= s.len() {
        None
    } else {
        match spec_skip_value(s, i, d) {
            None => None,
            Some(e) => {
                let j = spec_skip_ws(s, e);
                if e <= i || j < e || j >= s.len() {
                    None
                } else if s[j] == ']' {
                    Some(j + 1)
                } else if s[j] == ',' {
                    let j2 = spec_skip_ws(s, j + 1);
                    if j2 <= i || j2 > s.len() {
                        None
                    } else {
                        spec_array_elems(s, j2, d)
                    }
                } else {
                    None
                }
            },
        }
    }
}

/// The index of the frame's top-level object when the frame is one
/// well-formed object with nothing but whitespace around it.
pub open spec fn spec_doc_object(s: Seq<char>) -> Option<int> {
    let i = spec_skip_ws(s, 0);
    if 0 <= i < s.len() && s[i] == '{' {
        match spec_skip_value(s, i, DEPTH_LIMIT as nat) {
            None => None,
            Some(e) => if spec_skip_ws(s, e) == s.len() {
                Some(i)
            } else {
                None
            },
        }
    } else {
        None
    }
}

/// The content of the last top-level member keyed `key` whose value is a
/// string, in a well-formed frame.
pub open spec fn spec_top_string_field(s: Seq<char>, key: Seq<char>) -> Option<Seq<char>> {
    match spec_doc_object(s) {
        None => None,
        Some(i) => match spec_object_members(s, i + 1, key, (DEPTH_LIMIT - 1) as nat) {
            None => None,
            Some(m) => match m.found {
                None => None,
                Some(v0) => if 0 <= v0 < s.len() && s[v0] == '"' {
                    match spec_string_body(s, v0 + 1) {
                        None => None,
                        Some(r) => Some(r.content),
                    }
                } else {
                    None
                },
            },
        },
    }
}

/// The value position of the last top-level member keyed `key` whose
/// value is an object, in a well-formed frame.
pub open spec fn spec_top_object_field(s: Seq<char>, key: Seq<char>) -> Option<int> {
    match spec_doc_object(s) {
        None => None,
        Some(i) => match spec_object_members(s, i + 1, key, (DEPTH_LIMIT - 1) as nat) {
            None => None,
            Some(m) => match m.found {
                None => None,
                Some(v0) => if 0 <= v0 < s.len() && s[v0] == '{' {
                    Some(v0)
                } else {
                    None
                },
            },
        },
    }
}

proof fn lemma_acc_push(a: Seq<char>, c: char, b: Seq<char>)
    ensures
        a + (seq![c] + b) == a.push(c) + b,
{
    assert(a + (seq![c] + b) =~= a.push(c) + b);
}

fn is_ws_char(c: char) -> (r: bool)
    ensures
        r == is_ws(c),
{
    c == ' ' || c == '\t' || c == '\n' || c == '\r'
}

fn is_digit_char(c: char) -> (r: bool)
    ensures
        r == is_digit(c),
{
    let u = c as u32;
    48 <= u && u <= 57
}

fn skip_ws(v: &Vec<char>, i: usize) -> (r: usize)
    requires
        i <= v@.len(),
    ensures
        r == spec_skip_ws(v@, i as int),
        i <= r <= v@.len(),
{
    let mut j = i;
    while j < v.len() && is_ws_char(v[j])
        invariant
            i <= j <= v@.len(),
            spec_skip_ws(v@, i as int) == spec_skip_ws(v@, j as int),
        decreases v@.len() - j,
    {
        j = j + 1;
    }
    j
}

fn skip_digits(v: &Vec<char>, i: usize) -> (r: usize)
    requires
        i <= v@.len(),
    ensures
        r == spec_skip_digits(v@, i as int),
        i <= r <= v@.len(),
{
    let mut j = i;
    while j < v.len() && is_digit_char(v[j])
        invariant
            i <= j <= v@.len(),
            spec_skip_digits(v@, i as int) == spec_skip_digits(v@, j as int),
        decreases v@.len() - j,
    {
        j = j + 1;
    }
    j
}

fn hex_val_char(c: char) -> (r: Option<u32>)
    ensures
        r == hex_val(c),
{
    let u = c as u32;
    if 48 <= u && u <= 57 {
        Some(u - 48)
    } else if 65 <= u && u <= 70 {
        Some(u - 55)
    } else if 97 <= u && u <= 102 {
        Some(u - 87)
    } else {
        None
    }
}

fn hex4(v: &Vec<char>, i: usize) -> (r: Option<u32>)
    ensures
        r == spec_hex4(v@, i as int),
        r is Some ==> r->0 < 0x10000,
{
    if i > v.len() || v.len() - i < 4 {
        return None;
    }
    let a = match hex_val_char(v[i]) {
        Some(x) => x,
        None => {
            return None;
        },
    };
    let b = match hex_val_char(v[i + 1]) {
        Some(x) => x,
        None => {
            return None;
        },
    };
    let c = match hex_val_char(v[i + 2]) {
        Some(x) => x,
        None => {
            return None;
        },
    };
    let d = match hex_val_char(v[i + 3]) {
        Some(x) => x,
        None => {
            return None;
        },
    };
    Some(a * 0x1000 + b * 0x100 + c * 0x10 + d)
}

fn simple_escape_char(c: char) -> (r: Option<char>)
    ensures
        r == spec_simple_escape(c),
{
    if c == '"' {
        Some('"')
    } else if c == '\\' {
        Some('\\')
    } else if c == '/' {
        Some('/')
    } else if c == 'b' {
        Some('\u{0008}')
    } else if c == 'f' {
        Some('\u{000C}')
    } else if c == 'n' {
        Some('\n')
    } else if c == 'r' {
        Some('\r')
    } else if c == 't' {
        Some('\t')
    } else {
        None
    }
}

/// Parse a string literal's body from `start`, the index after its
/// opening quote, unescaping as the grammar describes.
fn parse_string_body(v: &Vec<char>, start: usize) -> (r: Option<(String, usize)>)
    requires
        start <= v@.len(),
    ensures
        ({
            let sp = spec_string_body(v@, start as int);
            match r {
                Some(p) => sp is Some && p.1 == sp->0.end && p.0@ == sp->0.content && start < p.1
                    <= v@.len(),
                None => sp is None,
            }
        }),
{
    let ghost s = v@;
    let mut acc = String::new();
    let mut j = start;
    proof {
        if spec_string_body(s, start as int) is Some {
            assert(Seq::<char>::empty() + spec_string_body(s, start as int)->0.content
                =~= spec_string_body(s, start as int)->0.content);
        }
    }
    loop
        invariant
            s == v@,
            start <= j <= s.len(),
            match spec_string_body(s, j as int) {
                Some(sp2) => spec_string_body(s, start as int) == Some(
                    StrParse { content: acc@ + sp2.content, end: sp2.end },
                ),
                None => spec_string_body(s, start as int) is None,
            },
        decreases s.len() - j,
    {
        if j >= v.len() {
            return None;
        }
        let c = v[j];
        if c == '"' {
            proof {
                string_body_end_bounds(s, start as int);
                assert(acc@ + Seq::<char>::empty() =~= acc@);
            }
            return Some((acc, j + 1));
        }
        if c == '\\' {
            if v.len() - j < 2 {
                return None;
            }
            let e = v[j + 1];
            if e == 'u' {
                let code = match hex4(v, j + 2) {
                    Some(x) => x,
                    None => {
                        return None;
                    },
                };
                if 0xD800 <= code && code < 0xDC00 {
                    if v.len() - j < 12 {
                        return None;
                    }
                    if v[j + 6] == '\\' && v[j + 7] == 'u' {
                        let lo = match hex4(v, j + 8) {
                            Some(x) => x,
                            None => {
                                return None;
                            },
                        };
                        if 0xDC00 <= lo && lo < 0xE000 {
                            let cp = 0x10000 + (code - 0xD800) * 0x400 + (lo - 0xDC00);
                            let ch = scalar_to_char(cp);
                            proof {
                                lemma_acc_push(
                                    acc@,
                                    ch,
                                    spec_string_body(s, j as int + 12)->0.content,
                                );
                            }
                            push_char(&mut acc, ch);
                            j = j + 12;
                        } else {
                            return None;
                        }
                    } else {
                        return None;
                    }
                } else if 0xDC00 <= code && code < 0xE000 {
                    return None;
                } else {
                    let ch = scalar_to_char(code);
                    proof {
                        lemma_acc_push(acc@, ch, spec_string_body(s, j as int + 6)->0.content);
                    }
                    push_char(&mut acc, ch);
                    j = j + 6;
                }
            } else {
                let u = match simple_escape_char(e) {
                    Some(x) => x,
                    None => {
                        return None;
                    },
                };
                proof {
                    lemma_acc_push(acc@, u, spec_string_body(s, j as int + 2)->0.content);
                }
                push_char(&mut acc, u);
                j = j + 2;
            }
        } else if (c as u32) < 0x20 {
            return None;
        } else {
            proof {
                lemma_acc_push(acc@, c, spec_string_body(s, j as int + 1)->0.content);
            }
            push_char(&mut acc, c);
            j = j + 1;
        }
    }
}

proof fn lemma_skip_digits_ge(s: Seq<char>, i: int)
    ensures
        spec_skip_digits(s, i) >= i,
    decreases s.len() - i,
{
    if 0 <= i < s.len() && is_digit(s[i]) {
        lemma_skip_digits_ge(s, i + 1);
    }
}

fn skip_number(v: &Vec<char>, i: usize) -> (r: Option<usize>)
    requires
        i <= v@.len(),
    ensures
        ({
            let sp = spec_skip_number(v@, i as int);
            match r {
                Some(e) => sp == Some(e as int) && i < e <= v@.len(),
                None => sp is None,
            }
        }),
{
    let ghost s = v@;
    if i >= v.len() {
        return None;
    }
    let j0 = if v[i] == '-' {
        i + 1
    } else {
        i
    };
    if j0 >= v.len() || !is_digit_char(v[j0]) {
        return None;
    }
    proof {
        lemma_skip_digits_ge(s, j0 as int + 1);
    }
    let j1 = skip_digits(v, j0);
    assert(j1 > j0);
    let j2 = if j1 < v.len() && v[j1] == '.' {
        if j1 + 1 < v.len() && is_digit_char(v[j1 + 1]) {
            skip_digits(v, j1 + 1)
        } else {
            return None;
        }
    } else {
        j1
    };
    if j2 < v.len() && (v[j2] == 'e' || v[j2] == 'E') {
        let j3 = if j2 + 1 < v.len() && (v[j2 + 1] == '+' || v[j2 + 1] == '-') {
            j2 + 2
        } else {
            j2 + 1
        };
        if j3 < v.len() && is_digit_char(v[j3]) {
            Some(skip_digits(v, j3))
        } else {
            None
        }
    } else {
        Some(j2)
    }
}

/// Skip one JSON value starting at `i` with nesting budget `d`.
fn skip_value(v: &Vec<char>, i: usize, d: u32) -> (r: Option<usize>)
    requires
        i <= v@.len(),
    ensures
        ({
            let sp = spec_skip_value(v@, i as int, d as nat);
            match r {
                Some(e) => sp == Some(e as int) && i < e <= v@.len(),
                None => sp is None,
            }
        }),
    decreases d, v@.len() - i, 0int,
{
    let ghost s = v@;
    if i >= v.len() {
        return None;
    }
    let c = v[i];
    if c == '"' {
        match parse_string_body(v, i + 1) {
            Some(p) => Some(p.1),
            None => None,
        }
    } else if c == '{' {
        if d == 0 {
            return None;
        }
        proof {
            reveal_strlit("");
            assert(""@ =~= Seq::<char>::empty());
        }
        match object_members(v, i + 1, "", d - 1) {
            Some(p) => Some(p.1),
            None => None,
        }
    } else if c == '[' {
        if d == 0 {
            return None;
        }
        array_items(v, i + 1, d - 1)
    } else if c == 't' {
        if v.len() - i >= 4 && v[i + 1] == 'r' && v[i + 2] == 'u' && v[i + 3] == 'e' {
            Some(i + 4)
        } else {
            None
        }
    } else if c == 'f' {
        if v.len() - i >= 5 && v[i + 1] == 'a' && v[i + 2] == 'l' && v[i + 3] == 's' && v[i + 4]
            == 'e' {
            Some(i + 5)
        } else {
            None
        }
    } else if c == 'n' {
        if v.len() - i >= 4 && v[i + 1] == 'u' && v[i + 2] == 'l' && v[i + 3] == 'l' {
            Some(i + 4)
        } else {
            None
        }
    } else {
        skip_number(v, i)
    }
}

/// Scan an object's members from the index after its opening brace.
fn object_members(v: &Vec<char>, i: usize, key: &str, d: u32) -> (r: Option<
    (Option<usize>, usize),
>)
    requires
        i <= v@.len(),
    ensures
        ({
            let sm = spec_object_members(v@, i as int, key@, d as nat);
            match r {
                Some(p) => sm is Some && sm->0.end == p.1 as int && i < p.1 <= v@.len() && (
                match p.0 {
                    Some(f) => sm->0.found == Some(f as int) && f < v@.len(),
                    None => sm->0.found is None,
                }),
                None => sm is None,
            }
        }),
    decreases d, v@.len() - i, 2int,
{
    let j = skip_ws(v, i);
    if j >= v.len() {
        return None;
    }
    if v[j] == '}' {
        return Some((None, j + 1));
    }
    object_pairs(v, j, key, d)
}

/// Scan members from the opening quote of a key onward, the last match
/// winning.
fn object_pairs(v: &Vec<char>, i: usize, key: &str, d: u32) -> (r: Option<
    (Option<usize>, usize),
>)
    requires
        i <= v@.len(),
    ensures
        ({
            let sm = spec_object_pairs(v@, i as int, key@, d as nat);
            match r {
                Some(p) => sm is Some && sm->0.end == p.1 as int && i < p.1 <= v@.len() && (
                match p.0 {
                    Some(f) => sm->0.found == Some(f as int) && f < v@.len(),
                    None => sm->0.found is None,
                }),
                None => sm is None,
            }
        }),
    decreases d, v@.len() - i, 1int,
{
    let ghost s = v@;
    let ghost key_s = key@;
    let mut cur = i;
    let mut acc: Option<usize> = None;
    loop
        invariant
            s == v@,
            key_s == key@,
            i <= cur <= s.len(),
            match acc {
                Some(f) => f < s.len(),
                None => true,
            },
            match spec_object_pairs(s, cur as int, key_s, d as nat) {
                Some(ms) => spec_object_pairs(s, i as int, key_s, d as nat) == Some(
                    MemberScan {
                        end: ms.end,
                        found: if ms.found is Some {
                            ms.found
                        } else {
                            match acc {
                                Some(f) => Some(f as int),
                                None => None,
                            }
                        },
                    },
                ),
                None => spec_object_pairs(s, i as int, key_s, d as nat) is None,
            },
        decreases s.len() - cur,
    {
        if cur >= v.len() || {
            let c = v[cur];
            c != '"'
        } {
            return None;
        }
        let (kstr, e1) = match parse_string_body(v, cur + 1) {
            Some(p) => p,
            None => {
                return None;
            },
        };
        let j2 = skip_ws(v, e1);
        if j2 >= v.len() || v[j2] != ':' {
            return None;
        }
        let v0 = skip_ws(v, j2 + 1);
        let e2 = match skip_value(v, v0, d) {
            Some(e) => e,
            None => {
                return None;
            },
        };
        let matched = str_eq(kstr.as_str(), key);
        let j3 = skip_ws(v, e2);
        if j3 >= v.len() {
            return None;
        }
        if v[j3] == '}' {
            let found = if matched {
                Some(v0)
            } else {
                acc
            };
            return Some((found, j3 + 1));
        }
        if v[j3] != ',' {
            return None;
        }
        let j4 = skip_ws(v, j3 + 1);
        if matched {
            acc = Some(v0);
        }
        cur = j4;
    }
}

/// Skip an array from the index after its opening bracket.
fn array_items(v: &Vec<char>, i: usize, d: u32) -> (r: Option<usize>)
    requires
        i <= v@.len(),
    ensures
        ({
            let sp = spec_array_items(v@, i as int, d as nat);
            match r {
                Some(e) => sp == Some(e as int) && i < e <= v@.len(),
                None => sp is None,
            }
        }),
    decreases d, v@.len() - i, 2int,
{
    let j = skip_ws(v, i);
    if j >= v.len() {
        return None;
    }
    if v[j] == ']' {
        return Some(j + 1);
    }
    array_elems(v, j, d)
}

/// Skip array elements from the start of an element onward.
fn array_elems(v: &Vec<char>, i: usize, d: u32) -> (r: Option<usize>)
    requires
        i <= v@.len(),
    ensures
        ({
            let sp = spec_array_elems(v@, i as int, d as nat);
            match r {
                Some(e) => sp == Some(e as int) && i < e <= v@.len(),
                None => sp is None,
            }
        }),
    decreases d, v@.len() - i, 1int,
{
    let ghost s = v@;
    let mut cur = i;
    loop
        invariant
            s == v@,
            i <= cur <= s.len(),
            spec_array_elems(s, i as int, d as nat) == spec_array_elems(s, cur as int, d as nat),
        decreases s.len() - cur,
    {
        let e = match skip_value(v, cur, d) {
            Some(e) => e,
            None => {
                return None;
            },
        };
        let j = skip_ws(v, e);
        if j >= v.len() {
            return None;
        }
        if v[j] == ']' {
            return Some(j + 1);
        }
        if v[j] != ',' {
            return None;
        }
        cur = skip_ws(v, j + 1);
    }
}

/// The top-level object of a well-formed frame.
pub(crate) fn doc_object(v: &Vec<char>) -> (r: Option<usize>)
    ensures
        ({
            let sp = spec_doc_object(v@);
            match r {
                Some(i) => sp == Some(i as int) && i < v@.len(),
                None => sp is None,
            }
        }),
{
    let i = skip_ws(v, 0);
    if i >= v.len() {
        return None;
    }
    if v[i] != '{' {
        return None;
    }
    match skip_value(v, i, DEPTH_LIMIT) {
        None => None,
        Some(e) => {
            let t = skip_ws(v, e);
            if t == v.len() {
                Some(i)
            } else {
                None
            }
        },
    }
}

/// Look up the last top-level string member keyed `key`.
pub(crate) fn top_string_field(v: &Vec<char>, key: &str) -> (r: Option<String>)
    ensures
        ({
            let sp = spec_top_string_field(v@, key@);
            match r {
                Some(c) => sp == Some(c@),
                None => sp is None,
            }
        }),
{
    let i = match doc_object(v) {
        Some(i) => i,
        None => {
            return None;
        },
    };
    assert(i < v.len());
    let m = match object_members(v, i + 1, key, DEPTH_LIMIT - 1) {
        Some(m) => m,
        None => {
            return None;
        },
    };
    let v0 = match m.0 {
        Some(x) => x,
        None => {
            return None;
        },
    };
    if v[v0] != '"' {
        return None;
    }
    assert(v0 < v.len());
    match parse_string_body(v, v0 + 1) {
        Some(p) => Some(p.0),
        None => None,
    }
}

/// Look up the last top-level object member keyed `key`.
pub(crate) fn top_object_field(v: &Vec<char>, key: &str) -> (r: Option<usize>)
    ensures
        ({
            let sp = spec_top_object_field(v@, key@);
            match r {
                Some(x) => sp == Some(x as int) && x < v@.len(),
                None => sp is None,
            }
        }),
{
    let i = match doc_object(v) {
        Some(i) => i,
        None => {
            return None;
        },
    };
    assert(i < v.len());
    let m = match object_members(v, i + 1, key, DEPTH_LIMIT - 1) {
        Some(m) => m,
        None => {
            return None;
        },
    };
    let v0 = match m.0 {
        Some(x) => x,
        None => {
            return None;
        },
    };
    if v[v0] != '{' {
        return None;
    }
    Some(v0)
}

/// Look up the string member `inner_key` of the object member
/// `outer_key`.
pub(crate) fn nested_string_field(v: &Vec<char>, outer_key: &str, inner_key: &str) -> (r: Option<
    String,
>)
    ensures
        ({
            let sp = spec_nested_string_field(v@, outer_key@, inner_key@);
            match r {
                Some(c) => sp == Some(c@),
                None => sp is None,
            }
        }),
{
    let v0 = match top_object_field(v, outer_key) {
        Some(x) => x,
        None => {
            return None;
        },
    };
    assert(v0 < v.len());
    let m = match object_members(v, v0 + 1, inner_key, DEPTH_LIMIT - 2) {
        Some(m) => m,
        None => {
            return None;
        },
    };
    let w0 = match m.0 {
        Some(x) => x,
        None => {
            return None;
        },
    };
    if v[w0] != '"' {
        return None;
    }
    assert(w0 < v.len());
    match parse_string_body(v, w0 + 1) {
        Some(p) => Some(p.0),
        None => None,
    }
}

/// A parsed string body ends past its start and inside the text.
proof fn string_body_end_bounds(s: Seq<char>, i: int)
    ensures
        spec_string_body(s, i) is Some ==> i < spec_string_body(s, i)->0.end <= s.len(),
    decreases s.len() - i,
{
    if 0 <= i < s.len() {
        if s[i] == '"' {
        } else if s[i] == '\\' {
            if i + 1 < s.len() {
                if s[i + 1] == 'u' {
                    if i + 6 <= s.len() {
                        string_body_end_bounds(s, i + 6);
                    }
                    if i + 12 <= s.len() {
                        string_body_end_bounds(s, i + 12);
                    }
                } else {
                    if i + 2 <= s.len() {
                        string_body_end_bounds(s, i + 2);
                    }
                }
            }
        } else {
            string_body_end_bounds(s, i + 1);
        }
    }
}

/// The content of the string member `inner_key` of the object stored
/// under the top-level member `outer_key`.
pub open spec fn spec_nested_string_field(
    s: Seq<char>,
    outer_key: Seq<char>,
    inner_key: Seq<char>,
) -> Option<Seq<char>> {
    match spec_top_object_field(s, outer_key) {
        None => None,
        Some(v0) => match spec_object_members(s, v0 + 1, inner_key, (DEPTH_LIMIT - 2) as nat) {
            None => None,
            Some(m) => match m.found {
                None => None,
                Some(w0) => if 0 <= w0 < s.len() && s[w0] == '"' {
                    match spec_string_body(s, w0 + 1) {
                        None => None,
                        Some(r) => Some(r.content),
                    }
                } else {
                    None
                },
            },
        },
    }
}

} // verus!
