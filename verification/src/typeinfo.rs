//! Stable identity tokens for concrete error types.
//!
//! Every concrete type that can stand behind an erasure carries a token
//! that is unique to it for the lifetime of the process.  The downcast
//! operations compare the token stored in an erasure against the token of
//! the requested type; equality of tokens is what makes the recovery of
//! the concrete type safe.

use vstd::prelude::*;

verus! {

/// Supplies the identity token of a concrete type.
///
/// The catalog assigns every implementor a distinct token; two different
/// implementors with equal tokens would be a contract violation, excluded
/// by construction of the catalog.
pub trait TypeInfo {
    /// The token, at the specification level.
    spec fn spec_token() -> u64;

    /// Returns the identity token of this type.
    fn token() -> (t: u64)
        ensures
            t == Self::spec_token(),
    ;
}

} // verus!
