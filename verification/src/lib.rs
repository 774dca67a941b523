//! A minimal error abstraction for environments where a full-featured
//! standard error type cannot be assumed.
//!
//! Every error value satisfies the [`Error`](error_trait::Error) contract:
//! it describes itself through human-facing and diagnostic text and may
//! expose an optional causal link.  Values are passed around as
//! [`ErrorObject`](erased::ErrorObject) erasures, a closed union over the
//! catalog of baseline failure kinds, from which the concrete type can be
//! recovered safely through the downcast operations, gated by the identity
//! tokens of [`typeinfo`].  Causal chains are walked hop by hop in
//! [`chain`], and the catalog entries available in a given environment are
//! described by the capability table in [`capability`].

pub mod capability;
pub mod chain;
pub mod erased;
pub mod error_trait;
pub mod failures;
pub mod typeinfo;
