//! The request bridge: the computing half of a dispatch.
//!
//! The host loop hands in plain values — url, method string, JSON-encoded
//! headers — and gets back a [`PendingRequest`] for the executor to run, or
//! the marshalling error the dispatch is rejected with.  When the network
//! operation finishes, its outcome settles the host loop's completion
//! exactly once.  Building the request never touches the network; the parts
//! that do live outside this crate and only carry these values.

use vstd::prelude::*;
use crate::completion::Completion;
use crate::completion::after_reject;
use crate::completion::after_resolve;
use crate::headers::HeaderMarshaller;
use crate::headers::HeaderSet;
use crate::headers::MarshalError;
use crate::headers::spec_decode;
use crate::verb::Verb;
use crate::verb::VerbResolver;
use crate::verb::spec_resolve;

verus! {

/// One prepared request: everything one executor task needs to perform it.
/// It is owned by that task for the duration of the request and discarded
/// after completion.
#[derive(Debug)]
pub struct PendingRequest {
    pub url: String,
    pub verb: Verb,
    pub headers: HeaderSet,
}

impl PendingRequest {
    /// The headers of a prepared request are always wire-legal.
    pub open spec fn wf(&self) -> bool {
        self.headers.wf()
    }
}

/// The request bridge: resolves the verb, marshals the headers, and settles
/// the completion with the outcome.
pub struct RequestBridge;

impl RequestBridge {
    /// Builds the request a dispatch will perform.  Verb resolution never
    /// fails — unknown methods fall back to GET; the call fails exactly when
    /// header marshalling fails, and with that error.
    pub fn prepare_request(url: &str, method: &str, headers_json: &str) -> (r: Result<
        PendingRequest,
        MarshalError,
    >)
        ensures
            match r {
                Ok(pr) => {
                    &&& pr.url@ == url@
                    &&& pr.verb == spec_resolve(method@)
                    &&& spec_decode(headers_json@) == Ok::<_, MarshalError>(pr.headers@)
                    &&& pr.wf()
                },
                Err(e) => spec_decode(headers_json@) == Err::<Seq<(Seq<char>, Seq<char>)>, _>(e),
            },
    {
        let headers = match HeaderMarshaller::decode(headers_json) {
            Ok(hs) => hs,
            Err(e) => {
                return Err(e);
            },
        };
        let verb = VerbResolver::resolve(method);
        Ok(PendingRequest { url: String::from_str(url), verb, headers })
    }

    /// Settles the host loop's completion with the outcome of the network
    /// operation: a body resolves, an error message rejects.  Reports
    /// whether this attempt settled the completion; one settled before
    /// stays exactly as it was.
    pub fn settle(c: &mut Completion<String>, outcome: Result<String, String>) -> (r: bool)
        ensures
            r == (*old(c) is Pending),
            *final(c) == (match outcome {
                Ok(body) => after_resolve(*old(c), body),
                Err(msg) => after_reject(*old(c), msg),
            }),
    {
        match outcome {
            Ok(body) => c.try_resolve(body),
            Err(msg) => c.try_reject(msg),
        }
    }
}

/// The warmup task's computing half: warmup performs no network work and
/// never rejects; once both services stand and the delay has elapsed, its
/// completion resolves with `true`.
pub struct WarmupTask;

impl WarmupTask {
    /// Settles a warmup completion; warmup always resolves with `true`.
    pub fn settle(c: &mut Completion<bool>) -> (r: bool)
        ensures
            r == (*old(c) is Pending),
            *final(c) == after_resolve(*old(c), true),
    {
        c.try_resolve(true)
    }
}

} // verus!
