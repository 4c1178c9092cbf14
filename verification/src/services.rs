//! Process-scoped service slots: the executor and the pooled HTTP client
//! are each created at most once, on first demand, and every caller
//! observes the one instance the first successful creation produced.
//!
//! Running the construction single-flight across threads is the embedding's
//! concern; this module fixes what every embedding must preserve: a filled
//! slot never changes again, and a failed construction leaves the slot
//! empty and surfaces the failure to the immediate caller.

use vstd::prelude::*;

verus! {

/// A slot holding a process-wide service instance, or nothing yet.
pub enum ServiceSlot<T> {
    Empty,
    Ready(T),
}

/// The slot after one creation attempt whose construction ended in
/// `outcome`: only an empty slot takes a successfully constructed instance;
/// a filled slot never changes.
pub open spec fn after_create<T>(s: ServiceSlot<T>, outcome: Result<T, String>) -> ServiceSlot<
    T,
> {
    if s is Empty {
        match outcome {
            Ok(t) => ServiceSlot::Ready(t),
            Err(_) => s,
        }
    } else {
        s
    }
}

impl<T> ServiceSlot<T> {
    /// A slot with no instance yet.
    pub fn new() -> (r: Self)
        ensures
            r is Empty,
    {
        ServiceSlot::Empty
    }

    /// Whether the service instance exists.
    pub fn ready(&self) -> (r: bool)
        ensures
            r == (*self is Ready),
    {
        match self {
            ServiceSlot::Empty => false,
            ServiceSlot::Ready(_) => true,
        }
    }

    /// One creation attempt, handing in how the construction ended.  An
    /// empty slot takes a constructed instance; a construction failure is
    /// returned to this caller and the slot stays empty, so a later call
    /// may attempt creation again.  A filled slot is never touched.
    pub fn create_if_absent(&mut self, outcome: Result<T, String>) -> (r: Result<(), String>)
        ensures
            *final(self) == after_create(*old(self), outcome),
            r is Err <==> (*old(self) is Empty && outcome is Err),
            r matches Err(m) ==> outcome == Err::<T, String>(m),
    {
        if self.ready() {
            return Ok(());
        }
        match outcome {
            Ok(t) => {
                *self = ServiceSlot::Ready(t);
                Ok(())
            },
            Err(m) => Err(m),
        }
    }

    /// The one instance of a filled slot, if it exists yet.
    pub fn handle(&self) -> (r: Option<&T>)
        ensures
            match r {
                Some(v) => *self == ServiceSlot::Ready(*v),
                None => *self is Empty,
            },
    {
        match self {
            ServiceSlot::Ready(t) => Some(t),
            ServiceSlot::Empty => None,
        }
    }
}

/// Law: a service is created at most once — after any attempt fills the
/// slot, every later attempt, successful or failed, leaves the slot exactly
/// as the first one did, so all callers observe the same instance.
pub proof fn lemma_created_at_most_once<T>(
    s: ServiceSlot<T>,
    first: Result<T, String>,
    later: Result<T, String>,
)
    requires
        after_create(s, first) is Ready,
    ensures
        after_create(after_create(s, first), later) == after_create(s, first),
{
}

} // verus!
