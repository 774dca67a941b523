use core_error::capability::{CapabilityTable, FailureKind, THRESHOLD_COUNT};
use core_error::erased::Erasable;
use core_error::failures::{FromUtf8Failure, ParseBoolFailure};

#[test]
fn up_to_sets_exactly_the_lower_flags() {
    let t = CapabilityTable::up_to(3);
    for k in 0..THRESHOLD_COUNT {
        assert_eq!(t.supports(k), k <= 3);
    }
}

#[test]
fn flags_monotonic_in_every_table() {
    for level in 0..THRESHOLD_COUNT {
        let t = CapabilityTable::up_to(level);
        for n in 0..THRESHOLD_COUNT {
            for m in 0..n {
                if t.supports(n) {
                    assert!(t.supports(m));
                }
            }
        }
    }
}

#[test]
fn supports_is_clear_beyond_the_table() {
    let t = CapabilityTable::up_to(THRESHOLD_COUNT - 1);
    assert!(!t.supports(THRESHOLD_COUNT));
    assert!(!t.supports(THRESHOLD_COUNT + 100));
}

#[test]
fn from_flags_accepts_monotonic_flags() {
    let t = CapabilityTable::from_flags(vec![true, true, true, false, false, false, false, false]);
    assert!(t.is_some());
    let t = t.unwrap();
    assert!(t.supports(0));
    assert!(t.supports(2));
    assert!(!t.supports(3));
}

#[test]
fn from_flags_rejects_a_gap() {
    let flags = vec![true, false, true, false, false, false, false, false];
    assert!(CapabilityTable::from_flags(flags).is_none());
}

#[test]
fn from_flags_rejects_wrong_length() {
    assert!(CapabilityTable::from_flags(vec![true, true]).is_none());
    assert!(CapabilityTable::from_flags(vec![]).is_none());
}

#[test]
fn enabled_follows_thresholds() {
    let oldest = CapabilityTable::up_to(0);
    assert!(oldest.enabled(FailureKind::ParseBool));
    assert!(oldest.enabled(FailureKind::Context));
    assert!(!oldest.enabled(FailureKind::Fmt));
    assert!(!oldest.enabled(FailureKind::FromUtf8));

    let newest = CapabilityTable::up_to(THRESHOLD_COUNT - 1);
    assert!(newest.enabled(FailureKind::FromUtf8));
    assert!(newest.enabled(FailureKind::TryFromInt));
}

#[test]
fn admits_follows_the_erasures_kind() {
    let t = CapabilityTable::up_to(3);
    assert!(t.admits(&ParseBoolFailure.erase()));
    let utf8_owned = FromUtf8Failure { bytes: vec![0xff], valid_up_to: 0 }.erase();
    assert!(!t.admits(&utf8_owned));
}

#[test]
fn thresholds_stay_inside_the_table() {
    let kinds = [
        FailureKind::ParseBool,
        FailureKind::Utf8,
        FailureKind::ParseInt,
        FailureKind::ParseFloat,
        FailureKind::Fmt,
        FailureKind::Borrow,
        FailureKind::BorrowMut,
        FailureKind::ParseChar,
        FailureKind::DecodeUtf16,
        FailureKind::Layout,
        FailureKind::TryFromInt,
        FailureKind::TryFromSlice,
        FailureKind::CharTryFrom,
        FailureKind::FromUtf8,
        FailureKind::FromUtf16,
        FailureKind::Context,
    ];
    for kind in kinds {
        assert!(kind.threshold() < THRESHOLD_COUNT);
    }
}
