//! The contract every error-representing value must satisfy.
//!
//! An implementor supplies human-facing and diagnostic text — always
//! available, with no failure mode — and reports causation through two
//! accessors: `source` is the primary one, and `cause` delegates to it by
//! default.  A terminal value reports no cause; a value wrapping an
//! underlying failure overrides `source` to hand out a borrowed link to
//! it.

use vstd::prelude::*;

use crate::erased::ErrorObject;

verus! {

/// The spec-level value behind an optional borrowed causal link.
pub open spec fn opt_deref(r: Option<&ErrorObject>) -> Option<ErrorObject> {
    match r {
        Some(e) => Some(*e),
        None => None,
    }
}

/// The basic expectations for error values: self-description plus an
/// optional causal link.
///
/// The three spec functions fix what the executable accessors return, so
/// that callers can reason about every implementor through this contract
/// alone.  `cause` and `source` are pinned to the same specification:
/// however an implementor overrides them, the two report the same causal
/// link.
pub trait Error {
    /// Human-facing text, at the specification level.
    spec fn spec_message(&self) -> Seq<char>;

    /// Diagnostic text, at the specification level.
    spec fn spec_diagnostic(&self) -> Seq<char>;

    /// The causal link, at the specification level.
    spec fn spec_source(&self) -> Option<ErrorObject>;

    /// Human-facing text describing the failure.
    fn message(&self) -> (s: &str)
        ensures
            s@ == self.spec_message(),
    ;

    /// Diagnostic text for developers.
    fn diagnostic(&self) -> (s: &str)
        ensures
            s@ == self.spec_diagnostic(),
    ;

    /// The underlying cause of this failure, when one exists.
    fn source(&self) -> (r: Option<&ErrorObject>)
        ensures
            opt_deref(r) == self.spec_source(),
    ;

    /// The underlying cause of this failure; delegates to `source`.
    fn cause(&self) -> (r: Option<&ErrorObject>)
        ensures
            opt_deref(r) == self.spec_source(),
    {
        self.source()
    }
}

/// `cause` and `source` return identical results for every implementor:
/// the contracts of the two accessors pin what each returns to the one
/// specification of the causal link, so however an implementor overrides
/// them — or keeps the delegating default of `cause` — the two report
/// the same cause.
pub proof fn lemma_cause_agrees_with_source<E: Error>(
    e: &E,
    c: Option<&ErrorObject>,
    s: Option<&ErrorObject>,
)
    requires
        opt_deref(c) == e.spec_source(),
        opt_deref(s) == e.spec_source(),
    ensures
        opt_deref(c) == opt_deref(s),
{
}

/// The owning-indirection wrapper: a boxed error value satisfies the
/// contract by forwarding every accessor to the value it holds.
impl<T: Error> Error for Box<T> {
    open spec fn spec_message(&self) -> Seq<char> {
        (**self).spec_message()
    }

    open spec fn spec_diagnostic(&self) -> Seq<char> {
        (**self).spec_diagnostic()
    }

    open spec fn spec_source(&self) -> Option<ErrorObject> {
        (**self).spec_source()
    }

    fn message(&self) -> (s: &str) {
        (**self).message()
    }

    fn diagnostic(&self) -> (s: &str) {
        (**self).diagnostic()
    }

    fn source(&self) -> (r: Option<&ErrorObject>) {
        (**self).source()
    }

    fn cause(&self) -> (r: Option<&ErrorObject>) {
        (**self).cause()
    }
}

} // verus!
