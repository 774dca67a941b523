use core_error::erased::Erasable;
use core_error::error_trait::Error;
use core_error::failures::{
    BorrowFailure, BorrowMutFailure, CharTryFromFailure, ContextFailure, DecodeUtf16Failure,
    FmtFailure, FromUtf16Failure, FromUtf8Failure, LayoutFailure, ParseBoolFailure,
    ParseCharFailure, ParseFloatFailure, ParseIntFailure, TryFromIntFailure, TryFromSliceFailure,
    Utf8Failure,
};

#[test]
fn erase_then_downcast_ref_same_type() {
    let obj = Utf8Failure { valid_up_to: 5 }.erase();
    let r = obj.downcast_ref::<Utf8Failure>();
    assert!(r.is_some());
    assert_eq!(r.unwrap().valid_up_to, 5);
}

#[test]
fn erase_then_downcast_ref_keeps_text() {
    let obj = ParseBoolFailure.erase();
    let back = obj.downcast_ref::<ParseBoolFailure>().unwrap();
    let fresh = ParseBoolFailure;
    assert_eq!(back.message(), fresh.message());
    assert_eq!(back.diagnostic(), fresh.diagnostic());
}

#[test]
fn downcast_ref_other_type_absent() {
    let obj = ParseBoolFailure.erase();
    assert!(obj.downcast_ref::<ParseIntFailure>().is_none());
    assert!(obj.downcast_ref::<Utf8Failure>().is_none());
    assert!(obj.downcast_ref::<ContextFailure>().is_none());
}

#[test]
fn is_agrees_with_downcast_ref() {
    let objs = vec![
        ParseBoolFailure.erase(),
        ParseIntFailure.erase(),
        Utf8Failure { valid_up_to: 0 }.erase(),
        ContextFailure { message: String::from("top"), cause: None }.erase(),
    ];
    for obj in &objs {
        assert_eq!(
            obj.is::<ParseBoolFailure>(),
            obj.downcast_ref::<ParseBoolFailure>().is_some()
        );
        assert_eq!(
            obj.is::<ParseIntFailure>(),
            obj.downcast_ref::<ParseIntFailure>().is_some()
        );
        assert_eq!(obj.is::<Utf8Failure>(), obj.downcast_ref::<Utf8Failure>().is_some());
        assert_eq!(
            obj.is::<ContextFailure>(),
            obj.downcast_ref::<ContextFailure>().is_some()
        );
    }
}

#[test]
fn downcast_owned_match_yields_content() {
    let obj = ContextFailure {
        message: String::from("outer"),
        cause: Some(Box::new(ParseIntFailure.erase())),
    }
    .erase();
    match obj.downcast::<ContextFailure>() {
        Ok(c) => {
            assert_eq!(c.message, "outer");
            assert!(c.cause.is_some());
            assert!(c.cause.as_ref().unwrap().is::<ParseIntFailure>());
        }
        Err(_) => panic!("downcast to the erased type must succeed"),
    }
}

#[test]
fn downcast_owned_mismatch_returns_original_intact() {
    let obj = Utf8Failure { valid_up_to: 7 }.erase();
    match obj.downcast::<ParseBoolFailure>() {
        Ok(_) => panic!("downcast to a different type must fail"),
        Err(orig) => {
            let v = orig.downcast_ref::<Utf8Failure>().unwrap();
            assert_eq!(v.valid_up_to, 7);
        }
    }
}

#[test]
fn downcast_mut_updates_through_the_erasure() {
    let mut obj = Utf8Failure { valid_up_to: 1 }.erase();
    match obj.downcast_mut::<Utf8Failure>() {
        Some(v) => v.valid_up_to = 9,
        None => panic!("downcast_mut to the erased type must succeed"),
    }
    assert_eq!(obj.downcast_ref::<Utf8Failure>().unwrap().valid_up_to, 9);
}

#[test]
fn downcast_mut_wrong_type_leaves_unchanged() {
    let mut obj = Utf8Failure { valid_up_to: 3 }.erase();
    assert!(obj.downcast_mut::<ParseIntFailure>().is_none());
    assert_eq!(obj.downcast_ref::<Utf8Failure>().unwrap().valid_up_to, 3);
}

#[test]
fn parse_int_failure_roundtrip_text() {
    let obj = ParseIntFailure.erase();
    let back = obj.downcast_ref::<ParseIntFailure>().unwrap();
    assert_eq!(back.message(), "invalid digit found in string");
    assert!(obj.downcast_ref::<Utf8Failure>().is_none());
}

#[test]
fn identity_tokens_are_distinct() {
    let objs = vec![
        ParseBoolFailure.erase(),
        Utf8Failure { valid_up_to: 0 }.erase(),
        ParseIntFailure.erase(),
        ParseFloatFailure.erase(),
        FmtFailure.erase(),
        BorrowFailure.erase(),
        BorrowMutFailure.erase(),
        ParseCharFailure.erase(),
        DecodeUtf16Failure { unpaired_surrogate: 0xd800 }.erase(),
        LayoutFailure.erase(),
        TryFromIntFailure.erase(),
        TryFromSliceFailure.erase(),
        CharTryFromFailure.erase(),
        FromUtf8Failure { bytes: vec![0xff], valid_up_to: 0 }.erase(),
        FromUtf16Failure.erase(),
        ContextFailure { message: String::from("top"), cause: None }.erase(),
    ];
    let mut tokens: Vec<u64> = objs.iter().map(|o| o.token_of()).collect();
    tokens.sort();
    for pair in tokens.windows(2) {
        assert!(pair[0] < pair[1]);
    }
}
