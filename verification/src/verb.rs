//! Resolution of a caller-supplied method string to a fixed HTTP verb.
//!
//! The verb set is closed: nine known tokens, matched case-sensitively.  Any
//! other input resolves to `Get`.  That fallback is deliberate policy of the
//! bridge, not an error path.

use vstd::prelude::*;
use crate::text::str_eq;

verus! {

/// The closed set of HTTP verbs the bridge can dispatch.
#[derive(Clone, Copy, Debug, PartialEq, Eq, Structural)]
pub enum Verb {
    Get,
    Post,
    Put,
    Delete,
    Head,
    Trace,
    Connect,
    Patch,
    Options,
}

/// The verb a method string resolves to: an exact, case-sensitive match
/// against the nine known tokens; everything else falls back to `Get`.
pub open spec fn spec_resolve(s: Seq<char>) -> Verb {
    if s == "GET"@ {
        Verb::Get
    } else if s == "POST"@ {
        Verb::Post
    } else if s == "PUT"@ {
        Verb::Put
    } else if s == "DELETE"@ {
        Verb::Delete
    } else if s == "HEAD"@ {
        Verb::Head
    } else if s == "TRACE"@ {
        Verb::Trace
    } else if s == "CONNECT"@ {
        Verb::Connect
    } else if s == "PATCH"@ {
        Verb::Patch
    } else if s == "OPTIONS"@ {
        Verb::Options
    } else {
        Verb::Get
    }
}

/// The wire token of a verb, as it appears in a request line.
pub open spec fn spec_wire_name(v: Verb) -> Seq<char> {
    match v {
        Verb::Get => "GET"@,
        Verb::Post => "POST"@,
        Verb::Put => "PUT"@,
        Verb::Delete => "DELETE"@,
        Verb::Head => "HEAD"@,
        Verb::Trace => "TRACE"@,
        Verb::Connect => "CONNECT"@,
        Verb::Patch => "PATCH"@,
        Verb::Options => "OPTIONS"@,
    }
}

/// The verb resolver: matches a method string against the nine known tokens.
pub struct VerbResolver;

impl VerbResolver {
    /// Maps a method string to its verb; unknown strings map to `Get`.
    pub fn resolve(method: &str) -> (v: Verb)
        ensures
            v == spec_resolve(method@),
    {
        if str_eq(method, "GET") {
            Verb::Get
        } else if str_eq(method, "POST") {
            Verb::Post
        } else if str_eq(method, "PUT") {
            Verb::Put
        } else if str_eq(method, "DELETE") {
            Verb::Delete
        } else if str_eq(method, "HEAD") {
            Verb::Head
        } else if str_eq(method, "TRACE") {
            Verb::Trace
        } else if str_eq(method, "CONNECT") {
            Verb::Connect
        } else if str_eq(method, "PATCH") {
            Verb::Patch
        } else if str_eq(method, "OPTIONS") {
            Verb::Options
        } else {
            Verb::Get
        }
    }
}

impl Verb {
    /// The wire token of this verb.
    pub fn wire_name(&self) -> (r: &'static str)
        ensures
            r@ == spec_wire_name(*self),
    {
        match self {
            Verb::Get => "GET",
            Verb::Post => "POST",
            Verb::Put => "PUT",
            Verb::Delete => "DELETE",
            Verb::Head => "HEAD",
            Verb::Trace => "TRACE",
            Verb::Connect => "CONNECT",
            Verb::Patch => "PATCH",
            Verb::Options => "OPTIONS",
        }
    }
}

/// Law: resolution is total and closed over the nine known tokens — a known
/// token resolves to the verb whose wire name it is, and resolving the wire
/// name of any verb gives that verb back.
pub proof fn lemma_resolve_wire_name_round_trip(v: Verb)
    ensures
        spec_resolve(spec_wire_name(v)) == v,
{
    reveal_strlit("GET");
    reveal_strlit("POST");
    reveal_strlit("PUT");
    reveal_strlit("DELETE");
    reveal_strlit("HEAD");
    reveal_strlit("TRACE");
    reveal_strlit("CONNECT");
    reveal_strlit("PATCH");
    reveal_strlit("OPTIONS");
    assert("GET"@.len() == 3 && "GET"@[0] == 'G');
    assert("POST"@.len() == 4 && "POST"@[0] == 'P');
    assert("PUT"@.len() == 3 && "PUT"@[0] == 'P');
    assert("DELETE"@.len() == 6);
    assert("HEAD"@.len() == 4 && "HEAD"@[0] == 'H');
    assert("TRACE"@.len() == 5 && "TRACE"@[0] == 'T');
    assert("CONNECT"@.len() == 7 && "CONNECT"@[0] == 'C');
    assert("PATCH"@.len() == 5 && "PATCH"@[0] == 'P');
    assert("OPTIONS"@.len() == 7 && "OPTIONS"@[0] == 'O');
}

} // verus!
