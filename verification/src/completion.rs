//! The one-shot completion object through which an outcome comes back to the
//! host loop.
//!
//! A completion is bound to one callback slot of the host loop.  It is
//! settled — resolved with a value, or rejected with a message — exactly
//! once: the first attempt settles it, and every later attempt reports
//! failure and leaves it exactly as it was.

use vstd::prelude::*;

verus! {

/// A one-shot handoff slot for the outcome of one dispatched unit of work.
pub enum Completion<T> {
    Pending,
    Resolved(T),
    Rejected(String),
}

/// The completion after an attempt to resolve it with `v`: a pending one
/// becomes resolved; a settled one does not change.
pub open spec fn after_resolve<T>(c: Completion<T>, v: T) -> Completion<T> {
    if c is Pending {
        Completion::Resolved(v)
    } else {
        c
    }
}

/// The completion after an attempt to reject it with `m`: a pending one
/// becomes rejected; a settled one does not change.
pub open spec fn after_reject<T>(c: Completion<T>, m: String) -> Completion<T> {
    if c is Pending {
        Completion::Rejected(m)
    } else {
        c
    }
}

impl<T> Completion<T> {
    /// A settled completion has been resolved or rejected.
    pub open spec fn is_settled(&self) -> bool {
        !(*self is Pending)
    }

    /// A fresh completion, awaiting its outcome.
    pub fn new() -> (r: Self)
        ensures
            r is Pending,
    {
        Completion::Pending
    }

    /// Whether the completion still awaits its outcome.
    pub fn pending(&self) -> (r: bool)
        ensures
            r == (*self is Pending),
    {
        match self {
            Completion::Pending => true,
            Completion::Resolved(_) => false,
            Completion::Rejected(_) => false,
        }
    }

    /// Attempts to resolve the completion with `v`; reports whether this
    /// attempt settled it.
    pub fn try_resolve(&mut self, v: T) -> (r: bool)
        ensures
            r == (*old(self) is Pending),
            *final(self) == after_resolve(*old(self), v),
    {
        if self.pending() {
            *self = Completion::Resolved(v);
            true
        } else {
            false
        }
    }

    /// Attempts to reject the completion with the message `m`; reports
    /// whether this attempt settled it.
    pub fn try_reject(&mut self, m: String) -> (r: bool)
        ensures
            r == (*old(self) is Pending),
            *final(self) == after_reject(*old(self), m),
    {
        if self.pending() {
            *self = Completion::Rejected(m);
            true
        } else {
            false
        }
    }
}

/// Law: a completion is settled exactly once.  From a pending completion,
/// the first attempt — resolve or reject — settles it, and after that no
/// attempt of either kind changes it.
pub proof fn lemma_settled_exactly_once<T>(c: Completion<T>, v: T, v2: T, m: String, m2: String)
    requires
        c is Pending,
    ensures
        after_resolve(c, v) is Resolved,
        after_reject(c, m) is Rejected,
        after_resolve(after_resolve(c, v), v2) == after_resolve(c, v),
        after_reject(after_resolve(c, v), m2) == after_resolve(c, v),
        after_resolve(after_reject(c, m), v2) == after_reject(c, m),
        after_reject(after_reject(c, m), m2) == after_reject(c, m),
{
}

} // verus!
