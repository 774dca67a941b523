//! The build-time capability table.
//!
//! Which entries of the failure catalog exist in a target environment is
//! decided before this library's consumers are built: an external
//! capability-detection step emits one boolean flag per threshold, a
//! threshold being a revision of the environment that introduced new
//! baseline failure types.  A set flag means "available at or above this
//! threshold"; a clear flag means "not available here", never an error.
//! The flags are monotonic: whenever a threshold is available, every
//! lower one is as well.  [`CapabilityTable`] holds such a set of flags
//! as an explicit, typed descriptor, accepts it only when it is
//! monotonic, and answers which catalog entries it enables.

use vstd::prelude::*;

use crate::erased::ErrorObject;

verus! {

/// The number of capability thresholds: one per environment revision
/// that introduced new baseline failure types, oldest first.
pub const THRESHOLD_COUNT: usize = 8;

/// One entry of the failure catalog, as named configuration data.
#[derive(Clone, Copy, PartialEq, Eq, Structural)]
pub enum FailureKind {
    /// The [`crate::failures::ParseBoolFailure`] entry.
    ParseBool,
    /// The [`crate::failures::Utf8Failure`] entry.
    Utf8,
    /// The [`crate::failures::ParseIntFailure`] entry.
    ParseInt,
    /// The [`crate::failures::ParseFloatFailure`] entry.
    ParseFloat,
    /// The [`crate::failures::FmtFailure`] entry.
    Fmt,
    /// The [`crate::failures::BorrowFailure`] entry.
    Borrow,
    /// The [`crate::failures::BorrowMutFailure`] entry.
    BorrowMut,
    /// The [`crate::failures::ParseCharFailure`] entry.
    ParseChar,
    /// The [`crate::failures::DecodeUtf16Failure`] entry.
    DecodeUtf16,
    /// The [`crate::failures::LayoutFailure`] entry.
    Layout,
    /// The [`crate::failures::TryFromIntFailure`] entry.
    TryFromInt,
    /// The [`crate::failures::TryFromSliceFailure`] entry.
    TryFromSlice,
    /// The [`crate::failures::CharTryFromFailure`] entry.
    CharTryFrom,
    /// The [`crate::failures::FromUtf8Failure`] entry.
    FromUtf8,
    /// The [`crate::failures::FromUtf16Failure`] entry.
    FromUtf16,
    /// The [`crate::failures::ContextFailure`] entry.
    Context,
}

impl FailureKind {
    /// The threshold at which this catalog entry becomes available, at
    /// the specification level.
    pub open spec fn spec_threshold(self) -> int {
        match self {
            FailureKind::ParseBool => 0,
            FailureKind::Utf8 => 0,
            FailureKind::ParseInt => 0,
            FailureKind::ParseFloat => 0,
            FailureKind::Fmt => 1,
            FailureKind::Borrow => 2,
            FailureKind::BorrowMut => 2,
            FailureKind::ParseChar => 3,
            FailureKind::DecodeUtf16 => 4,
            FailureKind::Layout => 5,
            FailureKind::TryFromInt => 6,
            FailureKind::TryFromSlice => 6,
            FailureKind::CharTryFrom => 6,
            FailureKind::FromUtf8 => 7,
            FailureKind::FromUtf16 => 7,
            FailureKind::Context => 0,
        }
    }

    /// Returns the threshold at which this catalog entry becomes
    /// available.
    pub fn threshold(self) -> (t: usize)
        ensures
            t == self.spec_threshold(),
            t < THRESHOLD_COUNT,
    {
        match self {
            FailureKind::ParseBool => 0,
            FailureKind::Utf8 => 0,
            FailureKind::ParseInt => 0,
            FailureKind::ParseFloat => 0,
            FailureKind::Fmt => 1,
            FailureKind::Borrow => 2,
            FailureKind::BorrowMut => 2,
            FailureKind::ParseChar => 3,
            FailureKind::DecodeUtf16 => 4,
            FailureKind::Layout => 5,
            FailureKind::TryFromInt => 6,
            FailureKind::TryFromSlice => 6,
            FailureKind::CharTryFrom => 6,
            FailureKind::FromUtf8 => 7,
            FailureKind::FromUtf16 => 7,
            FailureKind::Context => 0,
        }
    }
}

/// A set of boolean capability flags is monotonic when every set flag
/// has all flags below it set as well.
pub open spec fn monotonic(flags: Seq<bool>) -> bool {
    forall|i: int, j: int|
        #![trigger flags[i], flags[j]]
        0 <= i <= j < flags.len() && flags[j] ==> flags[i]
}

/// A set of flags where every set flag has its immediate predecessor
/// set is monotonic.
proof fn lemma_adjacent_implies_monotonic(flags: Seq<bool>)
    requires
        forall|k: int| 0 < k < flags.len() ==> (#[trigger] flags[k] ==> flags[k - 1]),
    ensures
        monotonic(flags),
{
    assert forall|i: int, j: int|
        #![trigger flags[i], flags[j]]
        0 <= i <= j < flags.len() && flags[j] implies flags[i] by {
        lemma_step_down(flags, i, j);
    }
}

/// Walks a set flag down to any lower index, one adjacent step at a
/// time.
proof fn lemma_step_down(flags: Seq<bool>, i: int, j: int)
    requires
        forall|k: int| 0 < k < flags.len() ==> (#[trigger] flags[k] ==> flags[k - 1]),
        0 <= i <= j < flags.len(),
        flags[j],
    ensures
        flags[i],
    decreases j - i,
{
    if i < j {
        assert(flags[j - 1]);
        lemma_step_down(flags, i, j - 1);
    }
}

/// A typed capability descriptor: one flag per threshold, monotonic by
/// construction.
pub struct CapabilityTable {
    flags: Vec<bool>,
}

impl CapabilityTable {
    /// The flags, at the specification level.
    pub closed spec fn spec_flags(&self) -> Seq<bool> {
        self.flags@
    }

    /// Well-formed: exactly one flag per known threshold, and monotonic.
    pub open spec fn wf(&self) -> bool {
        self.spec_flags().len() == THRESHOLD_COUNT && monotonic(self.spec_flags())
    }

    /// Whether the capability at a threshold is available; clear for a
    /// threshold beyond the table, never an error condition.
    pub open spec fn spec_flag(&self, threshold: int) -> bool {
        0 <= threshold < self.spec_flags().len() && self.spec_flags()[threshold]
    }

    /// Accepts an externally supplied set of flags when it has the right
    /// length and is monotonic; rejects it otherwise.
    pub fn from_flags(flags: Vec<bool>) -> (r: Option<CapabilityTable>)
        ensures
            r matches Some(t) ==> t.wf() && t.spec_flags() == flags@,
            r is Some <==> flags@.len() == THRESHOLD_COUNT && monotonic(flags@),
    {
        if flags.len() != THRESHOLD_COUNT {
            return None;
        }
        let mut i: usize = 1;
        while i < flags.len()
            invariant
                1 <= i <= flags@.len(),
                flags@.len() == THRESHOLD_COUNT,
                forall|k: int| 0 < k < i ==> (#[trigger] flags@[k] ==> flags@[k - 1]),
            decreases flags@.len() - i,
        {
            if flags[i] && !flags[i - 1] {
                proof {
                    let vi = i as int;
                    assert(flags@[vi] && !flags@[vi - 1]);
                    assert(!monotonic(flags@));
                }
                return None;
            }
            i = i + 1;
        }
        proof {
            lemma_adjacent_implies_monotonic(flags@);
        }
        Some(CapabilityTable { flags })
    }

    /// The table for an environment at revision `level`: every flag at
    /// or below that threshold set, every higher one clear.
    pub fn up_to(level: usize) -> (t: CapabilityTable)
        ensures
            t.wf(),
            forall|k: int| 0 <= k < THRESHOLD_COUNT ==> (t.spec_flag(k) <==> k <= level),
    {
        let mut flags: Vec<bool> = Vec::new();
        let mut i: usize = 0;
        while i < THRESHOLD_COUNT
            invariant
                i <= THRESHOLD_COUNT,
                flags@.len() == i,
                forall|k: int| 0 <= k < i ==> (flags@[k] <==> k <= level),
            decreases THRESHOLD_COUNT - i,
        {
            flags.push(i <= level);
            i = i + 1;
        }
        let t = CapabilityTable { flags };
        proof {
            assert forall|a: int, b: int|
                #![trigger t.spec_flags()[a], t.spec_flags()[b]]
                0 <= a <= b < t.spec_flags().len() && t.spec_flags()[b] implies t.spec_flags()[
                a
            ] by {
                assert(b <= level);
            }
        }
        t
    }

    /// Whether the capability at `threshold` is available here.
    pub fn supports(&self, threshold: usize) -> (b: bool)
        ensures
            b == self.spec_flag(threshold as int),
    {
        threshold < self.flags.len() && self.flags[threshold]
    }

    /// Whether the catalog entry for `kind` is compiled in under this
    /// table.
    pub fn enabled(&self, kind: FailureKind) -> (b: bool)
        ensures
            b == self.spec_flag(kind.spec_threshold()),
    {
        self.supports(kind.threshold())
    }

    /// Whether the catalog entry an erasure belongs to is compiled in
    /// under this table.
    pub fn admits(&self, obj: &ErrorObject) -> (b: bool)
        ensures
            b == self.spec_flag(obj.spec_kind().spec_threshold()),
    {
        self.enabled(obj.kind())
    }
}

/// Capability-flag monotonicity: whenever the flag for a higher
/// threshold is set, the flag for every lower threshold is set as well.
pub proof fn lemma_flags_monotonic(t: &CapabilityTable, m: int, n: int)
    requires
        t.wf(),
        0 <= m < n,
        t.spec_flag(n),
    ensures
        t.spec_flag(m),
{
    assert(t.spec_flags()[n]);
}

impl ErrorObject {
    /// The catalog entry this erasure belongs to, at the specification
    /// level.
    pub open spec fn spec_kind(&self) -> FailureKind {
        match self {
            ErrorObject::ParseBool(_) => FailureKind::ParseBool,
            ErrorObject::Utf8(_) => FailureKind::Utf8,
            ErrorObject::ParseInt(_) => FailureKind::ParseInt,
            ErrorObject::ParseFloat(_) => FailureKind::ParseFloat,
            ErrorObject::Fmt(_) => FailureKind::Fmt,
            ErrorObject::Borrow(_) => FailureKind::Borrow,
            ErrorObject::BorrowMut(_) => FailureKind::BorrowMut,
            ErrorObject::ParseChar(_) => FailureKind::ParseChar,
            ErrorObject::DecodeUtf16(_) => FailureKind::DecodeUtf16,
            ErrorObject::Layout(_) => FailureKind::Layout,
            ErrorObject::TryFromInt(_) => FailureKind::TryFromInt,
            ErrorObject::TryFromSlice(_) => FailureKind::TryFromSlice,
            ErrorObject::CharTryFrom(_) => FailureKind::CharTryFrom,
            ErrorObject::FromUtf8(_) => FailureKind::FromUtf8,
            ErrorObject::FromUtf16(_) => FailureKind::FromUtf16,
            ErrorObject::Context(_) => FailureKind::Context,
        }
    }

    /// Returns the catalog entry this erasure belongs to.
    pub fn kind(&self) -> (k: FailureKind)
        ensures
            k == self.spec_kind(),
    {
        match self {
            ErrorObject::ParseBool(_) => FailureKind::ParseBool,
            ErrorObject::Utf8(_) => FailureKind::Utf8,
            ErrorObject::ParseInt(_) => FailureKind::ParseInt,
            ErrorObject::ParseFloat(_) => FailureKind::ParseFloat,
            ErrorObject::Fmt(_) => FailureKind::Fmt,
            ErrorObject::Borrow(_) => FailureKind::Borrow,
            ErrorObject::BorrowMut(_) => FailureKind::BorrowMut,
            ErrorObject::ParseChar(_) => FailureKind::ParseChar,
            ErrorObject::DecodeUtf16(_) => FailureKind::DecodeUtf16,
            ErrorObject::Layout(_) => FailureKind::Layout,
            ErrorObject::TryFromInt(_) => FailureKind::TryFromInt,
            ErrorObject::TryFromSlice(_) => FailureKind::TryFromSlice,
            ErrorObject::CharTryFrom(_) => FailureKind::CharTryFrom,
            ErrorObject::FromUtf8(_) => FailureKind::FromUtf8,
            ErrorObject::FromUtf16(_) => FailureKind::FromUtf16,
            ErrorObject::Context(_) => FailureKind::Context,
        }
    }
}

} // verus!
