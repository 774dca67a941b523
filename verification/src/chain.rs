//! Walking cause chains.
//!
//! A cause chain is the sequence of erasures reached by asking each node
//! for its source in turn.  Causal links own their target, so a chain is
//! finite and terminates at a node that reports no cause.  The functions
//! here count the hops of a chain and find its terminal node.

use vstd::prelude::*;

use crate::erased::ErrorObject;
use crate::error_trait::Error;

verus! {

/// The number of hops from an erasure to the end of its cause chain:
/// zero for a terminal node, one more than its cause's hops otherwise.
pub open spec fn spec_hops(e: ErrorObject) -> nat
    decreases e,
{
    match e {
        ErrorObject::Context(c) => match c.cause {
            Some(b) => 1 + spec_hops(*b),
            None => 0,
        },
        _ => 0,
    }
}

/// The terminal node of the cause chain starting at an erasure: the
/// erasure itself when it reports no cause, its cause's terminal node
/// otherwise.
pub open spec fn spec_root(e: ErrorObject) -> ErrorObject
    decreases e,
{
    match e {
        ErrorObject::Context(c) => match c.cause {
            Some(b) => spec_root(*b),
            None => e,
        },
        _ => e,
    }
}

/// How one hop relates the chain measures to the causal link: a node
/// without a cause is its own terminal node with zero hops; a node with
/// one stands one hop before its cause, with the same terminal node.
pub proof fn lemma_chain_step(e: ErrorObject)
    ensures
        e.spec_source() is None ==> spec_hops(e) == 0 && spec_root(e) == e,
        e.spec_source() matches Some(s) ==> spec_hops(e) == 1 + spec_hops(s) && spec_root(e)
            == spec_root(s),
{
}

/// Counts the hops from `e` to the end of its cause chain, walking the
/// chain accessor by accessor until a node reports no further cause.
pub fn chain_hops(e: &ErrorObject) -> (n: usize)
    requires
        spec_hops(*e) <= usize::MAX,
    ensures
        n == spec_hops(*e),
{
    let mut cur: &ErrorObject = e;
    let mut n: usize = 0;
    loop
        invariant
            spec_hops(*e) <= usize::MAX,
            n + spec_hops(*cur) == spec_hops(*e),
        decreases spec_hops(*cur),
    {
        proof {
            lemma_chain_step(*cur);
        }
        match cur.source() {
            Some(next) => {
                n = n + 1;
                cur = next;
            },
            None => {
                return n;
            },
        }
    }
}

/// Walks to the terminal node of the cause chain starting at `e`: the
/// one node that reports no further cause.
pub fn root_cause(e: &ErrorObject) -> (r: &ErrorObject)
    ensures
        *r == spec_root(*e),
        r.spec_source() is None,
{
    let mut cur: &ErrorObject = e;
    loop
        invariant
            spec_root(*cur) == spec_root(*e),
        decreases spec_hops(*cur),
    {
        proof {
            lemma_chain_step(*cur);
        }
        match cur.source() {
            Some(next) => {
                cur = next;
            },
            None => {
                return cur;
            },
        }
    }
}

} // verus!
