//! Marshalling of a JSON-encoded flat string map into an outgoing header
//! collection.
//!
//! Decoding fails as a whole — there is no partial admission: the input must
//! be one JSON object whose values are all strings, every name must be a
//! legal wire-format token, and every value a legal wire-format header value.

use vstd::prelude::*;
use crate::json::pairs_view;
use crate::json::parse_flat_object;
use crate::json::parse_object;

verus! {

/// RFC 7230 token characters, the only characters legal in a header name.
pub open spec fn is_token_char(c: char) -> bool {
    ||| 'a' as u32 <= c as u32 <= 'z' as u32
    ||| 'A' as u32 <= c as u32 <= 'Z' as u32
    ||| '0' as u32 <= c as u32 <= '9' as u32
    ||| c == '!'
    ||| c == '#'
    ||| c == '$'
    ||| c == '%'
    ||| c == '&'
    ||| c == '\''
    ||| c == '*'
    ||| c == '+'
    ||| c == '-'
    ||| c == '.'
    ||| c == '^'
    ||| c == '_'
    ||| c == '`'
    ||| c == '|'
    ||| c == '~'
}

/// A legal wire-format header name: a non-empty token.
pub open spec fn valid_header_name(s: Seq<char>) -> bool {
    s.len() > 0 && (forall|i: int| 0 <= i < s.len() ==> is_token_char(s[i]))
}

/// A character legal in a wire-format header value: horizontal tab, or any
/// character that is neither a C0 control nor DEL.
pub open spec fn is_value_char(c: char) -> bool {
    c == '\t' || (c as u32 >= 0x20 && c as u32 != 0x7F)
}

/// A legal wire-format header value (the empty value is legal).
pub open spec fn valid_header_value(s: Seq<char>) -> bool {
    forall|i: int| 0 <= i < s.len() ==> is_value_char(s[i])
}

pub open spec fn all_names_valid(pairs: Seq<(Seq<char>, Seq<char>)>) -> bool {
    forall|i: int| 0 <= i < pairs.len() ==> valid_header_name(#[trigger] pairs[i].0)
}

pub open spec fn all_values_valid(pairs: Seq<(Seq<char>, Seq<char>)>) -> bool {
    forall|i: int| 0 <= i < pairs.len() ==> valid_header_value(#[trigger] pairs[i].1)
}

/// Why a header map failed to marshal.
#[derive(Clone, Copy, Debug, PartialEq, Eq, Structural)]
pub enum MarshalError {
    /// The input is not one JSON object whose values are all strings.
    NotStringObject,
    /// Some decoded name is not a legal wire-format token.
    InvalidHeaderName,
    /// Some decoded value is not a legal wire-format header value.
    InvalidHeaderValue,
}

pub open spec fn spec_message(e: MarshalError) -> Seq<char> {
    match e {
        MarshalError::NotStringObject => "headers must be a JSON object with string values"@,
        MarshalError::InvalidHeaderName => "header name is not a legal token"@,
        MarshalError::InvalidHeaderValue => "header value holds an illegal character"@,
    }
}

impl MarshalError {
    /// A descriptive message for the caller that the marshalling failed for.
    pub fn message(&self) -> (r: &'static str)
        ensures
            r@ == spec_message(*self),
    {
        match self {
            MarshalError::NotStringObject => "headers must be a JSON object with string values",
            MarshalError::InvalidHeaderName => "header name is not a legal token",
            MarshalError::InvalidHeaderValue => "header value holds an illegal character",
        }
    }
}

/// What decoding a header map returns, as a function of the input characters:
/// the decoded pairs in document order, or the error the input is refused
/// with.  Name violations are reported before value violations.
pub open spec fn spec_decode(s: Seq<char>) -> Result<
    Seq<(Seq<char>, Seq<char>)>,
    MarshalError,
> {
    match parse_object(s) {
        None => Err(MarshalError::NotStringObject),
        Some(pairs) => {
            if !all_names_valid(pairs) {
                Err(MarshalError::InvalidHeaderName)
            } else if !all_values_valid(pairs) {
                Err(MarshalError::InvalidHeaderValue)
            } else {
                Ok(pairs)
            }
        },
    }
}

/// An ordered collection of wire-legal header name/value pairs.
#[derive(Debug)]
pub struct HeaderSet {
    pairs: Vec<(String, String)>,
}

impl View for HeaderSet {
    type V = Seq<(Seq<char>, Seq<char>)>;

    closed spec fn view(&self) -> Self::V {
        pairs_view(self.pairs@)
    }
}

impl HeaderSet {
    /// Every pair of the set is wire-legal.
    pub open spec fn wf(&self) -> bool {
        all_names_valid(self@) && all_values_valid(self@)
    }

    pub fn len(&self) -> (r: usize)
        ensures
            r == self@.len(),
    {
        self.pairs.len()
    }

    pub fn name_at(&self, i: usize) -> (r: &String)
        requires
            i < self@.len(),
        ensures
            r@ == self@[i as int].0,
    {
        &self.pairs[i].0
    }

    pub fn value_at(&self, i: usize) -> (r: &String)
        requires
            i < self@.len(),
        ensures
            r@ == self@[i as int].1,
    {
        &self.pairs[i].1
    }
}

fn is_token_char_exec(c: char) -> (r: bool)
    ensures
        r == is_token_char(c),
{
    let u = c as u32;
    (97 <= u && u <= 122) || (65 <= u && u <= 90) || (48 <= u && u <= 57) || c == '!' || c == '#'
        || c == '$' || c == '%' || c == '&' || c == '\'' || c == '*' || c == '+' || c == '-' || c
        == '.' || c == '^' || c == '_' || c == '`' || c == '|' || c == '~'
}

fn is_value_char_exec(c: char) -> (r: bool)
    ensures
        r == is_value_char(c),
{
    let u = c as u32;
    c == '\t' || (u >= 0x20 && u != 0x7F)
}

fn valid_name_exec(s: &String) -> (r: bool)
    ensures
        r == valid_header_name(s@),
{
    let n = s.as_str().unicode_len();
    if n == 0 {
        return false;
    }
    let mut i: usize = 0;
    while i < n
        invariant
            n == s@.len(),
            i <= n,
            forall|j: int| 0 <= j < i ==> is_token_char(s@[j]),
        decreases n - i,
    {
        if !is_token_char_exec(s.as_str().get_char(i)) {
            return false;
        }
        i = i + 1;
    }
    true
}

fn valid_value_exec(s: &String) -> (r: bool)
    ensures
        r == valid_header_value(s@),
{
    let n = s.as_str().unicode_len();
    let mut i: usize = 0;
    while i < n
        invariant
            n == s@.len(),
            i <= n,
            forall|j: int| 0 <= j < i ==> is_value_char(s@[j]),
        decreases n - i,
    {
        if !is_value_char_exec(s.as_str().get_char(i)) {
            return false;
        }
        i = i + 1;
    }
    true
}

/// The header marshaller: decodes a JSON-encoded flat string map into a
/// [`HeaderSet`], or refuses the whole input.
pub struct HeaderMarshaller;

impl HeaderMarshaller {
    /// Decodes the input, admitting either every pair or none.
    pub fn decode(json: &str) -> (r: Result<HeaderSet, MarshalError>)
        ensures
            match r {
                Ok(hs) => spec_decode(json@) == Ok::<_, MarshalError>(hs@) && hs.wf(),
                Err(e) => spec_decode(json@) == Err::<Seq<(Seq<char>, Seq<char>)>, _>(e),
            },
    {
        let pairs = match parse_flat_object(json) {
            Some(p) => p,
            None => {
                return Err(MarshalError::NotStringObject);
            },
        };
        let n = pairs.len();
        let mut i: usize = 0;
        while i < n
            invariant
                n == pairs@.len(),
                i <= n,
                parse_object(json@) == Some(pairs_view(pairs@)),
                forall|j: int| 0 <= j < i ==> valid_header_name(#[trigger] pairs_view(pairs@)[j].0),
            decreases n - i,
        {
            if !valid_name_exec(&pairs[i].0) {
                proof {
                    assert(!valid_header_name(pairs_view(pairs@)[i as int].0));
                }
                return Err(MarshalError::InvalidHeaderName);
            }
            i = i + 1;
        }
        let mut i: usize = 0;
        while i < n
            invariant
                n == pairs@.len(),
                i <= n,
                parse_object(json@) == Some(pairs_view(pairs@)),
                all_names_valid(pairs_view(pairs@)),
                forall|j: int|
                    0 <= j < i ==> valid_header_value(#[trigger] pairs_view(pairs@)[j].1),
            decreases n - i,
        {
            if !valid_value_exec(&pairs[i].1) {
                proof {
                    assert(!valid_header_value(pairs_view(pairs@)[i as int].1));
                }
                return Err(MarshalError::InvalidHeaderValue);
            }
            i = i + 1;
        }
        Ok(HeaderSet { pairs })
    }
}

} // verus!
