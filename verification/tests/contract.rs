use core_error::chain::{chain_hops, root_cause};
use core_error::erased::{Erasable, ErrorObject};
use core_error::error_trait::Error;
use core_error::failures::{ContextFailure, ParseBoolFailure, ParseIntFailure};

fn require_send<T: Send>() {}

fn require_sync<T: Sync>() {}

#[test]
fn cause_equals_source_for_terminal_values() {
    let v = ParseIntFailure;
    assert!(v.cause().is_none());
    assert!(v.source().is_none());
}

#[test]
fn cause_equals_source_for_wrapping_values() {
    let b = ContextFailure {
        message: String::from("middle"),
        cause: Some(Box::new(ParseIntFailure.erase())),
    };
    let c = b.cause();
    let s = b.source();
    assert!(c.is_some());
    assert!(s.is_some());
    assert_eq!(c.unwrap().message(), s.unwrap().message());
}

#[test]
fn chain_walk_two_hops() {
    let c = ParseIntFailure.erase();
    let b = ContextFailure {
        message: String::from("decoding the record failed"),
        cause: Some(Box::new(c)),
    }
    .erase();
    let a = ContextFailure {
        message: String::from("loading the profile failed"),
        cause: Some(Box::new(b)),
    }
    .erase();

    assert_eq!(chain_hops(&a), 2);

    let hop1 = a.source().unwrap();
    assert_eq!(hop1.message(), "decoding the record failed");
    let hop2 = hop1.source().unwrap();
    assert_eq!(hop2.message(), "invalid digit found in string");
    assert!(hop2.source().is_none());

    let root = root_cause(&a);
    assert!(root.is::<ParseIntFailure>());
}

#[test]
fn chain_of_one_node_has_no_hops() {
    let lone = ContextFailure { message: String::from("lone"), cause: None }.erase();
    assert_eq!(chain_hops(&lone), 0);
    assert!(root_cause(&lone).is::<ContextFailure>());
}

#[test]
fn boxed_value_forwards_accessors() {
    let boxed = Box::new(ContextFailure {
        message: String::from("outer"),
        cause: Some(Box::new(ParseBoolFailure.erase())),
    });
    assert_eq!(boxed.message(), "outer");
    assert_eq!(boxed.diagnostic(), "ContextFailure");
    assert!(boxed.source().is_some());
    assert_eq!(boxed.cause().unwrap().message(), boxed.source().unwrap().message());
}

#[test]
fn erasure_accessors_forward_to_the_held_value() {
    let obj = ParseBoolFailure.erase();
    assert_eq!(obj.message(), "provided string was not `true` or `false`");
    assert_eq!(obj.diagnostic(), "ParseBoolFailure");
    assert!(obj.source().is_none());
    assert!(obj.cause().is_none());
}

#[test]
fn erasures_cross_threads() {
    require_send::<ErrorObject>();
    require_sync::<ErrorObject>();
}
