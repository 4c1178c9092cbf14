//! A parser for the bridge's header wire format: a JSON object whose values
//! are all strings.
//!
//! The grammar is given by spec functions over the character sequence; the
//! executable parser is proved to return exactly what the grammar derives.
//! Any input that is not a single JSON object with string values — malformed
//! syntax, a non-string value, trailing garbage — parses to `None`; no prefix
//! is ever accepted partially.

use vstd::prelude::*;
use crate::text::chars_to_string;
use crate::text::char_from_code;

verus! {

/// JSON insignificant whitespace.
pub open spec fn is_json_ws(c: char) -> bool {
    c == ' ' || c == '\t' || c == '\n' || c == '\r'
}

/// The first position at or after `i` holding a non-whitespace character
/// (or the end of the input).
pub open spec fn skip_ws(s: Seq<char>, i: int) -> int
    decreases s.len() - i,
{
    if 0 <= i < s.len() && is_json_ws(s[i]) {
        skip_ws(s, i + 1)
    } else {
        i
    }
}

pub proof fn lemma_skip_ws_bounds(s: Seq<char>, i: int)
    requires
        0 <= i <= s.len(),
    ensures
        i <= skip_ws(s, i) <= s.len(),
    decreases s.len() - i,
{
    if i < s.len() && is_json_ws(s[i]) {
        lemma_skip_ws_bounds(s, i + 1);
    }
}

pub open spec fn is_hex_digit(c: char) -> bool {
    ||| '0' as u32 <= c as u32 <= '9' as u32
    ||| 'a' as u32 <= c as u32 <= 'f' as u32
    ||| 'A' as u32 <= c as u32 <= 'F' as u32
}

pub open spec fn hex_digit_val(c: char) -> int {
    let u = c as int;
    if '0' as int <= u <= '9' as int {
        u - '0' as int
    } else if 'a' as int <= u <= 'f' as int {
        u - 'a' as int + 10
    } else if 'A' as int <= u <= 'F' as int {
        u - 'A' as int + 10
    } else {
        0
    }
}

/// Four hexadecimal digits starting at `i`, as one number.
pub open spec fn hex4(s: Seq<char>, i: int) -> Option<int> {
    if 0 <= i && i + 4 <= s.len() && is_hex_digit(s[i]) && is_hex_digit(s[i + 1]) && is_hex_digit(
        s[i + 2],
    ) && is_hex_digit(s[i + 3]) {
        Some(
            hex_digit_val(s[i]) * 0x1000 + hex_digit_val(s[i + 1]) * 0x100 + hex_digit_val(
                s[i + 2],
            ) * 0x10 + hex_digit_val(s[i + 3]),
        )
    } else {
        None
    }
}

/// The character a single-letter JSON escape stands for.
pub open spec fn simple_escape(e: char) -> Option<char> {
    if e == '"' {
        Some('"')
    } else if e == '\\' {
        Some('\\')
    } else if e == '/' {
        Some('/')
    } else if e == 'b' {
        Some('\u{0008}')
    } else if e == 'f' {
        Some('\u{000C}')
    } else if e == 'n' {
        Some('\n')
    } else if e == 'r' {
        Some('\r')
    } else if e == 't' {
        Some('\t')
    } else {
        None
    }
}

/// The code point a UTF-16 surrogate pair stands for.
pub open spec fn combine_surrogates(hi: int, lo: int) -> int {
    0x10000 + (hi - 0xD800) * 0x400 + (lo - 0xDC00)
}

/// The body of a JSON string starting at `i` (just past the opening quote):
/// the decoded characters and the position just past the closing quote.
pub open spec fn parse_string_body(s: Seq<char>, i: int) -> Option<(Seq<char>, int)>
    decreases s.len() - i,
{
    if i < 0 || i >= s.len() {
        None
    } else {
        let c = s[i];
        if c == '"' {
            Some((Seq::empty(), i + 1))
        } else if c == '\\' {
            if i + 1 >= s.len() {
                None
            } else {
                let e = s[i + 1];
                if e == 'u' {
                    match hex4(s, i + 2) {
                        None => None,
                        Some(u) => {
                            if u < 0xD800 || u >= 0xE000 {
                                match parse_string_body(s, i + 6) {
                                    Some((rest, j)) => Some((seq![u as char] + rest, j)),
                                    None => None,
                                }
                            } else if u < 0xDC00 {
                                if i + 8 <= s.len() && s[i + 6] == '\\' && s[i + 7] == 'u' {
                                    match hex4(s, i + 8) {
                                        None => None,
                                        Some(l) => {
                                            if 0xDC00 <= l < 0xE000 {
                                                match parse_string_body(s, i + 12) {
                                                    Some((rest, j)) => Some(
                                                        (
                                                            seq![combine_surrogates(u, l) as char]
                                                                + rest,
                                                            j,
                                                        ),
                                                    ),
                                                    None => None,
                                                }
                                            } else {
                                                None
                                            }
                                        },
                                    }
                                } else {
                                    None
                                }
                            } else {
                                None
                            }
                        },
                    }
                } else {
                    match simple_escape(e) {
                        None => None,
                        Some(c2) => match parse_string_body(s, i + 2) {
                            Some((rest, j)) => Some((seq![c2] + rest, j)),
                            None => None,
                        },
                    }
                }
            }
        } else if (c as u32) < 0x20 {
            None
        } else {
            match parse_string_body(s, i + 1) {
                Some((rest, j)) => Some((seq![c] + rest, j)),
                None => None,
            }
        }
    }
}

pub proof fn lemma_parse_string_body_bounds(s: Seq<char>, i: int)
    ensures
        parse_string_body(s, i) matches Some(r) ==> i + 1 <= r.1 <= s.len(),
    decreases s.len() - i,
{
    if 0 <= i < s.len() {
        let c = s[i];
        if c == '"' {
        } else if c == '\\' && i + 1 < s.len() {
            let e = s[i + 1];
            if e == 'u' {
                match hex4(s, i + 2) {
                    None => {},
                    Some(u) => {
                        if u < 0xD800 || u >= 0xE000 {
                            lemma_parse_string_body_bounds(s, i + 6);
                        } else if u < 0xDC00 && hex4(s, i + 8) is Some {
                            lemma_parse_string_body_bounds(s, i + 12);
                        }
                    },
                }
            } else {
                lemma_parse_string_body_bounds(s, i + 2);
            }
        } else {
            lemma_parse_string_body_bounds(s, i + 1);
        }
    }
}

/// One or more `"key" : "value"` members starting at `i` (where a key's
/// opening quote must stand), through the closing `}` of the object: the
/// decoded pairs in document order and the position just past the `}`.
pub open spec fn parse_members(s: Seq<char>, i: int) -> Option<
    (Seq<(Seq<char>, Seq<char>)>, int),
>
    decreases s.len() - i,
        via parse_members_decreases
{
    if i < 0 || i >= s.len() || s[i] != '"' {
        None
    } else {
        match parse_string_body(s, i + 1) {
            None => None,
            Some((key, j)) => {
                let k = skip_ws(s, j);
                if k >= s.len() || s[k] != ':' {
                    None
                } else {
                    let m = skip_ws(s, k + 1);
                    if m >= s.len() || s[m] != '"' {
                        None
                    } else {
                        match parse_string_body(s, m + 1) {
                            None => None,
                            Some((value, p)) => {
                                let q = skip_ws(s, p);
                                if q < s.len() && s[q] == ',' {
                                    let r = skip_ws(s, q + 1);
                                    match parse_members(s, r) {
                                        Some((rest, t)) => Some((seq![(key, value)] + rest, t)),
                                        None => None,
                                    }
                                } else if q < s.len() && s[q] == '}' {
                                    Some((seq![(key, value)], q + 1))
                                } else {
                                    None
                                }
                            },
                        }
                    }
                }
            },
        }
    }
}

#[via_fn]
proof fn parse_members_decreases(s: Seq<char>, i: int) {
    if 0 <= i < s.len() && s[i] == '"' {
        lemma_parse_string_body_bounds(s, i + 1);
        match parse_string_body(s, i + 1) {
            None => {},
            Some((key, j)) => {
                lemma_skip_ws_bounds(s, j);
                let k = skip_ws(s, j);
                if k < s.len() && s[k] == ':' {
                    lemma_skip_ws_bounds(s, k + 1);
                    let m = skip_ws(s, k + 1);
                    if m < s.len() && s[m] == '"' {
                        lemma_parse_string_body_bounds(s, m + 1);
                        match parse_string_body(s, m + 1) {
                            None => {},
                            Some((value, p)) => {
                                lemma_skip_ws_bounds(s, p);
                                let q = skip_ws(s, p);
                                if q < s.len() && s[q] == ',' {
                                    lemma_skip_ws_bounds(s, q + 1);
                                }
                            },
                        }
                    }
                }
            },
        }
    }
}

/// The pairs of a complete JSON object with string values, or `None` where
/// the input is not exactly one such object (whitespace aside).
pub open spec fn parse_object(s: Seq<char>) -> Option<Seq<(Seq<char>, Seq<char>)>> {
    let i = skip_ws(s, 0);
    if i >= s.len() || s[i] != '{' {
        None
    } else {
        let j = skip_ws(s, i + 1);
        if j < s.len() && s[j] == '}' {
            if skip_ws(s, j + 1) == s.len() {
                Some(Seq::empty())
            } else {
                None
            }
        } else {
            match parse_members(s, j) {
                None => None,
                Some((pairs, k)) => {
                    if skip_ws(s, k) == s.len() {
                        Some(pairs)
                    } else {
                        None
                    }
                },
            }
        }
    }
}

/// The view of an owned key/value pair.
pub open spec fn pair_view(p: (String, String)) -> (Seq<char>, Seq<char>) {
    (p.0@, p.1@)
}

/// The view of an owned pair list.
pub open spec fn pairs_view(v: Seq<(String, String)>) -> Seq<(Seq<char>, Seq<char>)> {
    v.map_values(|p: (String, String)| pair_view(p))
}

fn is_ws_char(c: char) -> (r: bool)
    ensures
        r == is_json_ws(c),
{
    c == ' ' || c == '\t' || c == '\n' || c == '\r'
}

fn exec_skip_ws(s: &str, n: usize, i: usize) -> (r: usize)
    requires
        n == s@.len(),
        i <= n,
    ensures
        r as int == skip_ws(s@, i as int),
        i <= r <= n,
{
    let mut cur: usize = i;
    while cur < n && is_ws_char(s.get_char(cur))
        invariant
            n == s@.len(),
            i <= cur <= n,
            skip_ws(s@, i as int) == skip_ws(s@, cur as int),
        decreases n - cur,
    {
        cur = cur + 1;
    }
    cur
}

fn hex_val_exec(c: char) -> (r: Option<u32>)
    ensures
        match r {
            Some(v) => is_hex_digit(c) && v as int == hex_digit_val(c) && v < 16,
            None => !is_hex_digit(c),
        },
{
    let u = c as u32;
    if 48 <= u && u <= 57 {
        Some(u - 48)
    } else if 97 <= u && u <= 102 {
        Some(u - 97 + 10)
    } else if 65 <= u && u <= 70 {
        Some(u - 65 + 10)
    } else {
        None
    }
}

fn exec_hex4(s: &str, n: usize, i: usize) -> (r: Option<u32>)
    requires
        n == s@.len(),
        i <= n,
    ensures
        match r {
            Some(u) => hex4(s@, i as int) == Some(u as int) && u < 0x10000,
            None => hex4(s@, i as int) is None,
        },
{
    if n - i < 4 {
        return None;
    }
    let v0 = match hex_val_exec(s.get_char(i)) {
        Some(v) => v,
        None => {
            return None;
        },
    };
    let v1 = match hex_val_exec(s.get_char(i + 1)) {
        Some(v) => v,
        None => {
            return None;
        },
    };
    let v2 = match hex_val_exec(s.get_char(i + 2)) {
        Some(v) => v,
        None => {
            return None;
        },
    };
    let v3 = match hex_val_exec(s.get_char(i + 3)) {
        Some(v) => v,
        None => {
            return None;
        },
    };
    Some(v0 * 0x1000 + v1 * 0x100 + v2 * 0x10 + v3)
}

fn simple_escape_exec(e: char) -> (r: Option<char>)
    ensures
        r == simple_escape(e),
{
    if e == '"' {
        Some('"')
    } else if e == '\\' {
        Some('\\')
    } else if e == '/' {
        Some('/')
    } else if e == 'b' {
        Some('\u{0008}')
    } else if e == 'f' {
        Some('\u{000C}')
    } else if e == 'n' {
        Some('\n')
    } else if e == 'r' {
        Some('\r')
    } else if e == 't' {
        Some('\t')
    } else {
        None
    }
}

fn exec_string_body(s: &str, n: usize, i: usize) -> (r: Option<(Vec<char>, usize)>)
    requires
        n == s@.len(),
        i <= n,
    ensures
        match r {
            Some(cj) => parse_string_body(s@, i as int) == Some((cj.0@, cj.1 as int)) && i < cj.1
                <= n,
            None => parse_string_body(s@, i as int) is None,
        },
{
    let mut acc: Vec<char> = Vec::new();
    let mut cur: usize = i;
    proof {
        match parse_string_body(s@, i as int) {
            Some(rj) => {
                assert(Seq::<char>::empty() + rj.0 =~= rj.0);
            },
            None => {},
        }
    }
    loop
        invariant
            n == s@.len(),
            i <= cur <= n,
            (match parse_string_body(s@, cur as int) {
                Some(rj) => parse_string_body(s@, i as int) == Some((acc@ + rj.0, rj.1)),
                None => parse_string_body(s@, i as int) is None,
            }),
        decreases n - cur,
    {
        if cur == n {
            return None;
        }
        let c = s.get_char(cur);
        if c == '"' {
            proof {
                assert(acc@ + Seq::<char>::empty() =~= acc@);
            }
            return Some((acc, cur + 1));
        } else if c == '\\' {
            if n - cur < 2 {
                return None;
            }
            let e = s.get_char(cur + 1);
            if e == 'u' {
                let u = match exec_hex4(s, n, cur + 2) {
                    Some(u) => u,
                    None => {
                        return None;
                    },
                };
                if u < 0xD800 || u >= 0xE000 {
                    let c2 = match char_from_code(u) {
                        Some(c2) => c2,
                        None => {
                            return None;
                        },
                    };
                    proof {
                        match parse_string_body(s@, cur as int + 6) {
                            Some(rj) => {
                                assert(acc@.push(c2) + rj.0 =~= acc@ + (seq![c2] + rj.0));
                            },
                            None => {},
                        }
                    }
                    acc.push(c2);
                    cur = cur + 6;
                } else if u < 0xDC00 {
                    if n - cur < 8 {
                        return None;
                    }
                    if s.get_char(cur + 6) != '\\' || s.get_char(cur + 7) != 'u' {
                        return None;
                    }
                    let l = match exec_hex4(s, n, cur + 8) {
                        Some(l) => l,
                        None => {
                            return None;
                        },
                    };
                    if l < 0xDC00 || l >= 0xE000 {
                        return None;
                    }
                    let cc = 0x10000 + (u - 0xD800) * 0x400 + (l - 0xDC00);
                    let c2 = match char_from_code(cc) {
                        Some(c2) => c2,
                        None => {
                            return None;
                        },
                    };
                    proof {
                        match parse_string_body(s@, cur as int + 12) {
                            Some(rj) => {
                                assert(acc@.push(c2) + rj.0 =~= acc@ + (seq![c2] + rj.0));
                            },
                            None => {},
                        }
                    }
                    acc.push(c2);
                    cur = cur + 12;
                } else {
                    return None;
                }
            } else {
                let c2 = match simple_escape_exec(e) {
                    Some(c2) => c2,
                    None => {
                        return None;
                    },
                };
                proof {
                    match parse_string_body(s@, cur as int + 2) {
                        Some(rj) => {
                            assert(acc@.push(c2) + rj.0 =~= acc@ + (seq![c2] + rj.0));
                        },
                        None => {},
                    }
                }
                acc.push(c2);
                cur = cur + 2;
            }
        } else if (c as u32) < 0x20 {
            return None;
        } else {
            proof {
                match parse_string_body(s@, cur as int + 1) {
                    Some(rj) => {
                        assert(acc@.push(c) + rj.0 =~= acc@ + (seq![c] + rj.0));
                    },
                    None => {},
                }
            }
            acc.push(c);
            cur = cur + 1;
        }
    }
}

fn exec_members(s: &str, n: usize, i: usize) -> (r: Option<(Vec<(String, String)>, usize)>)
    requires
        n == s@.len(),
        i <= n,
    ensures
        match r {
            Some(pj) => parse_members(s@, i as int) == Some((pairs_view(pj.0@), pj.1 as int)) && i
                < pj.1 <= n,
            None => parse_members(s@, i as int) is None,
        },
{
    let mut acc: Vec<(String, String)> = Vec::new();
    let mut cur: usize = i;
    proof {
        match parse_members(s@, i as int) {
            Some(rt) => {
                assert(pairs_view(Seq::<(String, String)>::empty()) + rt.0 =~= rt.0);
            },
            None => {},
        }
    }
    loop
        invariant
            n == s@.len(),
            i <= cur <= n,
            (match parse_members(s@, cur as int) {
                Some(rt) => parse_members(s@, i as int) == Some((pairs_view(acc@) + rt.0, rt.1)),
                None => parse_members(s@, i as int) is None,
            }),
        decreases n - cur,
    {
        if cur == n {
            return None;
        }
        if s.get_char(cur) != '"' {
            return None;
        }
        let (keyv, j) = match exec_string_body(s, n, cur + 1) {
            Some(kj) => kj,
            None => {
                return None;
            },
        };
        let k = exec_skip_ws(s, n, j);
        if k == n {
            return None;
        }
        if s.get_char(k) != ':' {
            return None;
        }
        let m = exec_skip_ws(s, n, k + 1);
        if m == n {
            return None;
        }
        if s.get_char(m) != '"' {
            return None;
        }
        let (valv, p) = match exec_string_body(s, n, m + 1) {
            Some(vp) => vp,
            None => {
                return None;
            },
        };
        let q = exec_skip_ws(s, n, p);
        let key = chars_to_string(&keyv);
        let value = chars_to_string(&valv);
        if q < n && s.get_char(q) == ',' {
            let r2 = exec_skip_ws(s, n, q + 1);
            proof {
                match parse_members(s@, r2 as int) {
                    Some(rt) => {
                        assert(pairs_view(acc@.push((key, value))) + rt.0 =~= pairs_view(acc@) + (
                        seq![(key@, value@)] + rt.0));
                    },
                    None => {},
                }
            }
            acc.push((key, value));
            cur = r2;
        } else if q < n && s.get_char(q) == '}' {
            proof {
                assert(pairs_view(acc@.push((key, value))) =~= pairs_view(acc@) + seq![
                    (key@, value@),
                ]);
            }
            acc.push((key, value));
            return Some((acc, q + 1));
        } else {
            return None;
        }
    }
}

/// Parses the input as one JSON object with string values, yielding the
/// key/value pairs in document order; `None` on any other input.
pub fn parse_flat_object(s: &str) -> (r: Option<Vec<(String, String)>>)
    ensures
        match r {
            Some(v) => parse_object(s@) == Some(pairs_view(v@)),
            None => parse_object(s@) is None,
        },
{
    let n = s.unicode_len();
    let i = exec_skip_ws(s, n, 0);
    if i == n {
        return None;
    }
    if s.get_char(i) != '{' {
        return None;
    }
    let j = exec_skip_ws(s, n, i + 1);
    if j < n && s.get_char(j) == '}' {
        let k = exec_skip_ws(s, n, j + 1);
        if k == n {
            let empty: Vec<(String, String)> = Vec::new();
            proof {
                assert(pairs_view(empty@) =~= Seq::<(Seq<char>, Seq<char>)>::empty());
            }
            Some(empty)
        } else {
            None
        }
    } else {
        let (pairs, k) = match exec_members(s, n, j) {
            Some(pk) => pk,
            None => {
                return None;
            },
        };
        let m = exec_skip_ws(s, n, k);
        if m == n {
            Some(pairs)
        } else {
            None
        }
    }
}

} // verus!
