//! The catalog of baseline failure types.
//!
//! Each type here represents one of the common failure kinds — parse
//! failures, numeric conversion failures, text-decoding failures,
//! borrow-conflict failures and similar — as plain values, and satisfies
//! the [`Error`] contract.  All catalog entries are terminal: they report
//! no cause.  [`ContextFailure`] is the one exception, a wrapping node
//! that carries its own text and an optional owned causal link, from
//! which cause chains are built.
//!
//! Every type also carries a distinct identity token and can be erased
//! into an [`ErrorObject`] and recovered from one.

use vstd::prelude::*;

use crate::erased::{Erasable, ErrorObject};
use crate::error_trait::Error;
use crate::typeinfo::TypeInfo;

verus! {

/// A string slice that was neither `"true"` nor `"false"`.
pub struct ParseBoolFailure;

impl Error for ParseBoolFailure {
    open spec fn spec_message(&self) -> Seq<char> {
        "provided string was not `true` or `false`"@
    }

    open spec fn spec_diagnostic(&self) -> Seq<char> {
        "ParseBoolFailure"@
    }

    open spec fn spec_source(&self) -> Option<ErrorObject> {
        None
    }

    fn message(&self) -> &str {
        "provided string was not `true` or `false`"
    }

    fn diagnostic(&self) -> &str {
        "ParseBoolFailure"
    }

    fn source(&self) -> Option<&ErrorObject> {
        None
    }
}

impl TypeInfo for ParseBoolFailure {
    open spec fn spec_token() -> u64 {
        1
    }

    fn token() -> u64 {
        1
    }
}

impl Erasable for ParseBoolFailure {
    open spec fn wrap_spec(self) -> ErrorObject {
        ErrorObject::ParseBool(self)
    }

    proof fn wrap_spec_injective(a: Self, b: Self) {
    }

    proof fn wrap_spec_token(v: Self) {
    }

    fn erase(self) -> ErrorObject {
        ErrorObject::ParseBool(self)
    }

    fn peel_ref(obj: &ErrorObject) -> Option<&Self> {
        match obj {
            ErrorObject::ParseBool(v) => Some(v),
            _ => None,
        }
    }

    fn peel_mut(obj: &mut ErrorObject) -> Option<&mut Self> {
        match obj {
            ErrorObject::ParseBool(v) => Some(v),
            _ => None,
        }
    }

    fn peel(obj: ErrorObject) -> Result<Self, ErrorObject> {
        match obj {
            ErrorObject::ParseBool(v) => Ok(v),
            other => Err(other),
        }
    }
}

/// Byte input that was not valid UTF-8.
pub struct Utf8Failure {
    /// How many bytes from the start were valid UTF-8.
    pub valid_up_to: usize,
}

impl Error for Utf8Failure {
    open spec fn spec_message(&self) -> Seq<char> {
        "invalid utf-8 sequence"@
    }

    open spec fn spec_diagnostic(&self) -> Seq<char> {
        "Utf8Failure"@
    }

    open spec fn spec_source(&self) -> Option<ErrorObject> {
        None
    }

    fn message(&self) -> &str {
        "invalid utf-8 sequence"
    }

    fn diagnostic(&self) -> &str {
        "Utf8Failure"
    }

    fn source(&self) -> Option<&ErrorObject> {
        None
    }
}

impl TypeInfo for Utf8Failure {
    open spec fn spec_token() -> u64 {
        2
    }

    fn token() -> u64 {
        2
    }
}

impl Erasable for Utf8Failure {
    open spec fn wrap_spec(self) -> ErrorObject {
        ErrorObject::Utf8(self)
    }

    proof fn wrap_spec_injective(a: Self, b: Self) {
    }

    proof fn wrap_spec_token(v: Self) {
    }

    fn erase(self) -> ErrorObject {
        ErrorObject::Utf8(self)
    }

    fn peel_ref(obj: &ErrorObject) -> Option<&Self> {
        match obj {
            ErrorObject::Utf8(v) => Some(v),
            _ => None,
        }
    }

    fn peel_mut(obj: &mut ErrorObject) -> Option<&mut Self> {
        match obj {
            ErrorObject::Utf8(v) => Some(v),
            _ => None,
        }
    }

    fn peel(obj: ErrorObject) -> Result<Self, ErrorObject> {
        match obj {
            ErrorObject::Utf8(v) => Ok(v),
            other => Err(other),
        }
    }
}

/// A string slice that did not parse as an integer.
pub struct ParseIntFailure;

impl Error for ParseIntFailure {
    open spec fn spec_message(&self) -> Seq<char> {
        "invalid digit found in string"@
    }

    open spec fn spec_diagnostic(&self) -> Seq<char> {
        "ParseIntFailure"@
    }

    open spec fn spec_source(&self) -> Option<ErrorObject> {
        None
    }

    fn message(&self) -> &str {
        "invalid digit found in string"
    }

    fn diagnostic(&self) -> &str {
        "ParseIntFailure"
    }

    fn source(&self) -> Option<&ErrorObject> {
        None
    }
}

impl TypeInfo for ParseIntFailure {
    open spec fn spec_token() -> u64 {
        3
    }

    fn token() -> u64 {
        3
    }
}

impl Erasable for ParseIntFailure {
    open spec fn wrap_spec(self) -> ErrorObject {
        ErrorObject::ParseInt(self)
    }

    proof fn wrap_spec_injective(a: Self, b: Self) {
    }

    proof fn wrap_spec_token(v: Self) {
    }

    fn erase(self) -> ErrorObject {
        ErrorObject::ParseInt(self)
    }

    fn peel_ref(obj: &ErrorObject) -> Option<&Self> {
        match obj {
            ErrorObject::ParseInt(v) => Some(v),
            _ => None,
        }
    }

    fn peel_mut(obj: &mut ErrorObject) -> Option<&mut Self> {
        match obj {
            ErrorObject::ParseInt(v) => Some(v),
            _ => None,
        }
    }

    fn peel(obj: ErrorObject) -> Result<Self, ErrorObject> {
        match obj {
            ErrorObject::ParseInt(v) => Ok(v),
            other => Err(other),
        }
    }
}

/// A string slice that did not parse as a floating-point literal.
pub struct ParseFloatFailure;

impl Error for ParseFloatFailure {
    open spec fn spec_message(&self) -> Seq<char> {
        "invalid float literal"@
    }

    open spec fn spec_diagnostic(&self) -> Seq<char> {
        "ParseFloatFailure"@
    }

    open spec fn spec_source(&self) -> Option<ErrorObject> {
        None
    }

    fn message(&self) -> &str {
        "invalid float literal"
    }

    fn diagnostic(&self) -> &str {
        "ParseFloatFailure"
    }

    fn source(&self) -> Option<&ErrorObject> {
        None
    }
}

impl TypeInfo for ParseFloatFailure {
    open spec fn spec_token() -> u64 {
        4
    }

    fn token() -> u64 {
        4
    }
}

impl Erasable for ParseFloatFailure {
    open spec fn wrap_spec(self) -> ErrorObject {
        ErrorObject::ParseFloat(self)
    }

    proof fn wrap_spec_injective(a: Self, b: Self) {
    }

    proof fn wrap_spec_token(v: Self) {
    }

    fn erase(self) -> ErrorObject {
        ErrorObject::ParseFloat(self)
    }

    fn peel_ref(obj: &ErrorObject) -> Option<&Self> {
        match obj {
            ErrorObject::ParseFloat(v) => Some(v),
            _ => None,
        }
    }

    fn peel_mut(obj: &mut ErrorObject) -> Option<&mut Self> {
        match obj {
            ErrorObject::ParseFloat(v) => Some(v),
            _ => None,
        }
    }

    fn peel(obj: ErrorObject) -> Result<Self, ErrorObject> {
        match obj {
            ErrorObject::ParseFloat(v) => Ok(v),
            other => Err(other),
        }
    }
}

/// A failure raised while formatting an argument.
pub struct FmtFailure;

impl Error for FmtFailure {
    open spec fn spec_message(&self) -> Seq<char> {
        "an error occurred when formatting an argument"@
    }

    open spec fn spec_diagnostic(&self) -> Seq<char> {
        "FmtFailure"@
    }

    open spec fn spec_source(&self) -> Option<ErrorObject> {
        None
    }

    fn message(&self) -> &str {
        "an error occurred when formatting an argument"
    }

    fn diagnostic(&self) -> &str {
        "FmtFailure"
    }

    fn source(&self) -> Option<&ErrorObject> {
        None
    }
}

impl TypeInfo for FmtFailure {
    open spec fn spec_token() -> u64 {
        5
    }

    fn token() -> u64 {
        5
    }
}

impl Erasable for FmtFailure {
    open spec fn wrap_spec(self) -> ErrorObject {
        ErrorObject::Fmt(self)
    }

    proof fn wrap_spec_injective(a: Self, b: Self) {
    }

    proof fn wrap_spec_token(v: Self) {
    }

    fn erase(self) -> ErrorObject {
        ErrorObject::Fmt(self)
    }

    fn peel_ref(obj: &ErrorObject) -> Option<&Self> {
        match obj {
            ErrorObject::Fmt(v) => Some(v),
            _ => None,
        }
    }

    fn peel_mut(obj: &mut ErrorObject) -> Option<&mut Self> {
        match obj {
            ErrorObject::Fmt(v) => Some(v),
            _ => None,
        }
    }

    fn peel(obj: ErrorObject) -> Result<Self, ErrorObject> {
        match obj {
            ErrorObject::Fmt(v) => Ok(v),
            other => Err(other),
        }
    }
}

/// A shared borrow that conflicted with an outstanding exclusive one.
pub struct BorrowFailure;

impl Error for BorrowFailure {
    open spec fn spec_message(&self) -> Seq<char> {
        "already mutably borrowed"@
    }

    open spec fn spec_diagnostic(&self) -> Seq<char> {
        "BorrowFailure"@
    }

    open spec fn spec_source(&self) -> Option<ErrorObject> {
        None
    }

    fn message(&self) -> &str {
        "already mutably borrowed"
    }

    fn diagnostic(&self) -> &str {
        "BorrowFailure"
    }

    fn source(&self) -> Option<&ErrorObject> {
        None
    }
}

impl TypeInfo for BorrowFailure {
    open spec fn spec_token() -> u64 {
        6
    }

    fn token() -> u64 {
        6
    }
}

impl Erasable for BorrowFailure {
    open spec fn wrap_spec(self) -> ErrorObject {
        ErrorObject::Borrow(self)
    }

    proof fn wrap_spec_injective(a: Self, b: Self) {
    }

    proof fn wrap_spec_token(v: Self) {
    }

    fn erase(self) -> ErrorObject {
        ErrorObject::Borrow(self)
    }

    fn peel_ref(obj: &ErrorObject) -> Option<&Self> {
        match obj {
            ErrorObject::Borrow(v) => Some(v),
            _ => None,
        }
    }

    fn peel_mut(obj: &mut ErrorObject) -> Option<&mut Self> {
        match obj {
            ErrorObject::Borrow(v) => Some(v),
            _ => None,
        }
    }

    fn peel(obj: ErrorObject) -> Result<Self, ErrorObject> {
        match obj {
            ErrorObject::Borrow(v) => Ok(v),
            other => Err(other),
        }
    }
}

/// An exclusive borrow that conflicted with an outstanding borrow.
pub struct BorrowMutFailure;

impl Error for BorrowMutFailure {
    open spec fn spec_message(&self) -> Seq<char> {
        "already borrowed"@
    }

    open spec fn spec_diagnostic(&self) -> Seq<char> {
        "BorrowMutFailure"@
    }

    open spec fn spec_source(&self) -> Option<ErrorObject> {
        None
    }

    fn message(&self) -> &str {
        "already borrowed"
    }

    fn diagnostic(&self) -> &str {
        "BorrowMutFailure"
    }

    fn source(&self) -> Option<&ErrorObject> {
        None
    }
}

impl TypeInfo for BorrowMutFailure {
    open spec fn spec_token() -> u64 {
        7
    }

    fn token() -> u64 {
        7
    }
}

impl Erasable for BorrowMutFailure {
    open spec fn wrap_spec(self) -> ErrorObject {
        ErrorObject::BorrowMut(self)
    }

    proof fn wrap_spec_injective(a: Self, b: Self) {
    }

    proof fn wrap_spec_token(v: Self) {
    }

    fn erase(self) -> ErrorObject {
        ErrorObject::BorrowMut(self)
    }

    fn peel_ref(obj: &ErrorObject) -> Option<&Self> {
        match obj {
            ErrorObject::BorrowMut(v) => Some(v),
            _ => None,
        }
    }

    fn peel_mut(obj: &mut ErrorObject) -> Option<&mut Self> {
        match obj {
            ErrorObject::BorrowMut(v) => Some(v),
            _ => None,
        }
    }

    fn peel(obj: ErrorObject) -> Result<Self, ErrorObject> {
        match obj {
            ErrorObject::BorrowMut(v) => Ok(v),
            other => Err(other),
        }
    }
}

/// A string slice that did not parse as exactly one character.
pub struct ParseCharFailure;

impl Error for ParseCharFailure {
    open spec fn spec_message(&self) -> Seq<char> {
        "too many characters in string"@
    }

    open spec fn spec_diagnostic(&self) -> Seq<char> {
        "ParseCharFailure"@
    }

    open spec fn spec_source(&self) -> Option<ErrorObject> {
        None
    }

    fn message(&self) -> &str {
        "too many characters in string"
    }

    fn diagnostic(&self) -> &str {
        "ParseCharFailure"
    }

    fn source(&self) -> Option<&ErrorObject> {
        None
    }
}

impl TypeInfo for ParseCharFailure {
    open spec fn spec_token() -> u64 {
        8
    }

    fn token() -> u64 {
        8
    }
}

impl Erasable for ParseCharFailure {
    open spec fn wrap_spec(self) -> ErrorObject {
        ErrorObject::ParseChar(self)
    }

    proof fn wrap_spec_injective(a: Self, b: Self) {
    }

    proof fn wrap_spec_token(v: Self) {
    }

    fn erase(self) -> ErrorObject {
        ErrorObject::ParseChar(self)
    }

    fn peel_ref(obj: &ErrorObject) -> Option<&Self> {
        match obj {
            ErrorObject::ParseChar(v) => Some(v),
            _ => None,
        }
    }

    fn peel_mut(obj: &mut ErrorObject) -> Option<&mut Self> {
        match obj {
            ErrorObject::ParseChar(v) => Some(v),
            _ => None,
        }
    }

    fn peel(obj: ErrorObject) -> Result<Self, ErrorObject> {
        match obj {
            ErrorObject::ParseChar(v) => Ok(v),
            other => Err(other),
        }
    }
}

/// A UTF-16 code unit sequence with an unpaired surrogate.
pub struct DecodeUtf16Failure {
    /// The lone surrogate code unit.
    pub unpaired_surrogate: u16,
}

impl Error for DecodeUtf16Failure {
    open spec fn spec_message(&self) -> Seq<char> {
        "unpaired surrogate found"@
    }

    open spec fn spec_diagnostic(&self) -> Seq<char> {
        "DecodeUtf16Failure"@
    }

    open spec fn spec_source(&self) -> Option<ErrorObject> {
        None
    }

    fn message(&self) -> &str {
        "unpaired surrogate found"
    }

    fn diagnostic(&self) -> &str {
        "DecodeUtf16Failure"
    }

    fn source(&self) -> Option<&ErrorObject> {
        None
    }
}

impl TypeInfo for DecodeUtf16Failure {
    open spec fn spec_token() -> u64 {
        9
    }

    fn token() -> u64 {
        9
    }
}

impl Erasable for DecodeUtf16Failure {
    open spec fn wrap_spec(self) -> ErrorObject {
        ErrorObject::DecodeUtf16(self)
    }

    proof fn wrap_spec_injective(a: Self, b: Self) {
    }

    proof fn wrap_spec_token(v: Self) {
    }

    fn erase(self) -> ErrorObject {
        ErrorObject::DecodeUtf16(self)
    }

    fn peel_ref(obj: &ErrorObject) -> Option<&Self> {
        match obj {
            ErrorObject::DecodeUtf16(v) => Some(v),
            _ => None,
        }
    }

    fn peel_mut(obj: &mut ErrorObject) -> Option<&mut Self> {
        match obj {
            ErrorObject::DecodeUtf16(v) => Some(v),
            _ => None,
        }
    }

    fn peel(obj: ErrorObject) -> Result<Self, ErrorObject> {
        match obj {
            ErrorObject::DecodeUtf16(v) => Ok(v),
            other => Err(other),
        }
    }
}

/// Size or alignment parameters that make no valid memory layout.
pub struct LayoutFailure;

impl Error for LayoutFailure {
    open spec fn spec_message(&self) -> Seq<char> {
        "invalid parameters to layout construction"@
    }

    open spec fn spec_diagnostic(&self) -> Seq<char> {
        "LayoutFailure"@
    }

    open spec fn spec_source(&self) -> Option<ErrorObject> {
        None
    }

    fn message(&self) -> &str {
        "invalid parameters to layout construction"
    }

    fn diagnostic(&self) -> &str {
        "LayoutFailure"
    }

    fn source(&self) -> Option<&ErrorObject> {
        None
    }
}

impl TypeInfo for LayoutFailure {
    open spec fn spec_token() -> u64 {
        10
    }

    fn token() -> u64 {
        10
    }
}

impl Erasable for LayoutFailure {
    open spec fn wrap_spec(self) -> ErrorObject {
        ErrorObject::Layout(self)
    }

    proof fn wrap_spec_injective(a: Self, b: Self) {
    }

    proof fn wrap_spec_token(v: Self) {
    }

    fn erase(self) -> ErrorObject {
        ErrorObject::Layout(self)
    }

    fn peel_ref(obj: &ErrorObject) -> Option<&Self> {
        match obj {
            ErrorObject::Layout(v) => Some(v),
            _ => None,
        }
    }

    fn peel_mut(obj: &mut ErrorObject) -> Option<&mut Self> {
        match obj {
            ErrorObject::Layout(v) => Some(v),
            _ => None,
        }
    }

    fn peel(obj: ErrorObject) -> Result<Self, ErrorObject> {
        match obj {
            ErrorObject::Layout(v) => Ok(v),
            other => Err(other),
        }
    }
}

/// An integer that did not fit the target integral type.
pub struct TryFromIntFailure;

impl Error for TryFromIntFailure {
    open spec fn spec_message(&self) -> Seq<char> {
        "out of range integral type conversion attempted"@
    }

    open spec fn spec_diagnostic(&self) -> Seq<char> {
        "TryFromIntFailure"@
    }

    open spec fn spec_source(&self) -> Option<ErrorObject> {
        None
    }

    fn message(&self) -> &str {
        "out of range integral type conversion attempted"
    }

    fn diagnostic(&self) -> &str {
        "TryFromIntFailure"
    }

    fn source(&self) -> Option<&ErrorObject> {
        None
    }
}

impl TypeInfo for TryFromIntFailure {
    open spec fn spec_token() -> u64 {
        11
    }

    fn token() -> u64 {
        11
    }
}

impl Erasable for TryFromIntFailure {
    open spec fn wrap_spec(self) -> ErrorObject {
        ErrorObject::TryFromInt(self)
    }

    proof fn wrap_spec_injective(a: Self, b: Self) {
    }

    proof fn wrap_spec_token(v: Self) {
    }

    fn erase(self) -> ErrorObject {
        ErrorObject::TryFromInt(self)
    }

    fn peel_ref(obj: &ErrorObject) -> Option<&Self> {
        match obj {
            ErrorObject::TryFromInt(v) => Some(v),
            _ => None,
        }
    }

    fn peel_mut(obj: &mut ErrorObject) -> Option<&mut Self> {
        match obj {
            ErrorObject::TryFromInt(v) => Some(v),
            _ => None,
        }
    }

    fn peel(obj: ErrorObject) -> Result<Self, ErrorObject> {
        match obj {
            ErrorObject::TryFromInt(v) => Ok(v),
            other => Err(other),
        }
    }
}

/// A slice whose length did not match the target array type.
pub struct TryFromSliceFailure;

impl Error for TryFromSliceFailure {
    open spec fn spec_message(&self) -> Seq<char> {
        "could not convert slice to array"@
    }

    open spec fn spec_diagnostic(&self) -> Seq<char> {
        "TryFromSliceFailure"@
    }

    open spec fn spec_source(&self) -> Option<ErrorObject> {
        None
    }

    fn message(&self) -> &str {
        "could not convert slice to array"
    }

    fn diagnostic(&self) -> &str {
        "TryFromSliceFailure"
    }

    fn source(&self) -> Option<&ErrorObject> {
        None
    }
}

impl TypeInfo for TryFromSliceFailure {
    open spec fn spec_token() -> u64 {
        12
    }

    fn token() -> u64 {
        12
    }
}

impl Erasable for TryFromSliceFailure {
    open spec fn wrap_spec(self) -> ErrorObject {
        ErrorObject::TryFromSlice(self)
    }

    proof fn wrap_spec_injective(a: Self, b: Self) {
    }

    proof fn wrap_spec_token(v: Self) {
    }

    fn erase(self) -> ErrorObject {
        ErrorObject::TryFromSlice(self)
    }

    fn peel_ref(obj: &ErrorObject) -> Option<&Self> {
        match obj {
            ErrorObject::TryFromSlice(v) => Some(v),
            _ => None,
        }
    }

    fn peel_mut(obj: &mut ErrorObject) -> Option<&mut Self> {
        match obj {
            ErrorObject::TryFromSlice(v) => Some(v),
            _ => None,
        }
    }

    fn peel(obj: ErrorObject) -> Result<Self, ErrorObject> {
        match obj {
            ErrorObject::TryFromSlice(v) => Ok(v),
            other => Err(other),
        }
    }
}

/// An integer with no corresponding character value.
pub struct CharTryFromFailure;

impl Error for CharTryFromFailure {
    open spec fn spec_message(&self) -> Seq<char> {
        "converted integer out of range for `char`"@
    }

    open spec fn spec_diagnostic(&self) -> Seq<char> {
        "CharTryFromFailure"@
    }

    open spec fn spec_source(&self) -> Option<ErrorObject> {
        None
    }

    fn message(&self) -> &str {
        "converted integer out of range for `char`"
    }

    fn diagnostic(&self) -> &str {
        "CharTryFromFailure"
    }

    fn source(&self) -> Option<&ErrorObject> {
        None
    }
}

impl TypeInfo for CharTryFromFailure {
    open spec fn spec_token() -> u64 {
        13
    }

    fn token() -> u64 {
        13
    }
}

impl Erasable for CharTryFromFailure {
    open spec fn wrap_spec(self) -> ErrorObject {
        ErrorObject::CharTryFrom(self)
    }

    proof fn wrap_spec_injective(a: Self, b: Self) {
    }

    proof fn wrap_spec_token(v: Self) {
    }

    fn erase(self) -> ErrorObject {
        ErrorObject::CharTryFrom(self)
    }

    fn peel_ref(obj: &ErrorObject) -> Option<&Self> {
        match obj {
            ErrorObject::CharTryFrom(v) => Some(v),
            _ => None,
        }
    }

    fn peel_mut(obj: &mut ErrorObject) -> Option<&mut Self> {
        match obj {
            ErrorObject::CharTryFrom(v) => Some(v),
            _ => None,
        }
    }

    fn peel(obj: ErrorObject) -> Result<Self, ErrorObject> {
        match obj {
            ErrorObject::CharTryFrom(v) => Ok(v),
            other => Err(other),
        }
    }
}

/// Owned bytes that were not valid UTF-8.
pub struct FromUtf8Failure {
    /// The bytes that failed to decode.
    pub bytes: Vec<u8>,
    /// How many bytes from the start were valid UTF-8.
    pub valid_up_to: usize,
}

impl Error for FromUtf8Failure {
    open spec fn spec_message(&self) -> Seq<char> {
        "invalid utf-8 sequence in owned bytes"@
    }

    open spec fn spec_diagnostic(&self) -> Seq<char> {
        "FromUtf8Failure"@
    }

    open spec fn spec_source(&self) -> Option<ErrorObject> {
        None
    }

    fn message(&self) -> &str {
        "invalid utf-8 sequence in owned bytes"
    }

    fn diagnostic(&self) -> &str {
        "FromUtf8Failure"
    }

    fn source(&self) -> Option<&ErrorObject> {
        None
    }
}

impl TypeInfo for FromUtf8Failure {
    open spec fn spec_token() -> u64 {
        14
    }

    fn token() -> u64 {
        14
    }
}

impl Erasable for FromUtf8Failure {
    open spec fn wrap_spec(self) -> ErrorObject {
        ErrorObject::FromUtf8(self)
    }

    proof fn wrap_spec_injective(a: Self, b: Self) {
    }

    proof fn wrap_spec_token(v: Self) {
    }

    fn erase(self) -> ErrorObject {
        ErrorObject::FromUtf8(self)
    }

    fn peel_ref(obj: &ErrorObject) -> Option<&Self> {
        match obj {
            ErrorObject::FromUtf8(v) => Some(v),
            _ => None,
        }
    }

    fn peel_mut(obj: &mut ErrorObject) -> Option<&mut Self> {
        match obj {
            ErrorObject::FromUtf8(v) => Some(v),
            _ => None,
        }
    }

    fn peel(obj: ErrorObject) -> Result<Self, ErrorObject> {
        match obj {
            ErrorObject::FromUtf8(v) => Ok(v),
            other => Err(other),
        }
    }
}

/// Owned UTF-16 code units that were not valid UTF-16.
pub struct FromUtf16Failure;

impl Error for FromUtf16Failure {
    open spec fn spec_message(&self) -> Seq<char> {
        "invalid utf-16: lost surrogate pair"@
    }

    open spec fn spec_diagnostic(&self) -> Seq<char> {
        "FromUtf16Failure"@
    }

    open spec fn spec_source(&self) -> Option<ErrorObject> {
        None
    }

    fn message(&self) -> &str {
        "invalid utf-16: lost surrogate pair"
    }

    fn diagnostic(&self) -> &str {
        "FromUtf16Failure"
    }

    fn source(&self) -> Option<&ErrorObject> {
        None
    }
}

impl TypeInfo for FromUtf16Failure {
    open spec fn spec_token() -> u64 {
        15
    }

    fn token() -> u64 {
        15
    }
}

impl Erasable for FromUtf16Failure {
    open spec fn wrap_spec(self) -> ErrorObject {
        ErrorObject::FromUtf16(self)
    }

    proof fn wrap_spec_injective(a: Self, b: Self) {
    }

    proof fn wrap_spec_token(v: Self) {
    }

    fn erase(self) -> ErrorObject {
        ErrorObject::FromUtf16(self)
    }

    fn peel_ref(obj: &ErrorObject) -> Option<&Self> {
        match obj {
            ErrorObject::FromUtf16(v) => Some(v),
            _ => None,
        }
    }

    fn peel_mut(obj: &mut ErrorObject) -> Option<&mut Self> {
        match obj {
            ErrorObject::FromUtf16(v) => Some(v),
            _ => None,
        }
    }

    fn peel(obj: ErrorObject) -> Result<Self, ErrorObject> {
        match obj {
            ErrorObject::FromUtf16(v) => Ok(v),
            other => Err(other),
        }
    }
}

/// A wrapping failure: its own text plus an optional owned causal link.
///
/// Causal links are established at construction and never mutated
/// afterward; because the link owns its target, a chain is a finite
/// sequence that terminates at a node without one.
pub struct ContextFailure {
    /// Human-facing text for this node.
    pub message: String,
    /// The underlying cause, when one exists.
    pub cause: Option<Box<ErrorObject>>,
}

impl Error for ContextFailure {
    open spec fn spec_message(&self) -> Seq<char> {
        self.message@
    }

    open spec fn spec_diagnostic(&self) -> Seq<char> {
        "ContextFailure"@
    }

    open spec fn spec_source(&self) -> Option<ErrorObject> {
        match self.cause {
            Some(b) => Some(*b),
            None => None,
        }
    }

    fn message(&self) -> &str {
        self.message.as_str()
    }

    fn diagnostic(&self) -> &str {
        "ContextFailure"
    }

    fn source(&self) -> Option<&ErrorObject> {
        match &self.cause {
            Some(b) => Some(&**b),
            None => None,
        }
    }
}

impl TypeInfo for ContextFailure {
    open spec fn spec_token() -> u64 {
        16
    }

    fn token() -> u64 {
        16
    }
}

impl Erasable for ContextFailure {
    open spec fn wrap_spec(self) -> ErrorObject {
        ErrorObject::Context(self)
    }

    proof fn wrap_spec_injective(a: Self, b: Self) {
    }

    proof fn wrap_spec_token(v: Self) {
    }

    fn erase(self) -> ErrorObject {
        ErrorObject::Context(self)
    }

    fn peel_ref(obj: &ErrorObject) -> Option<&Self> {
        match obj {
            ErrorObject::Context(v) => Some(v),
            _ => None,
        }
    }

    fn peel_mut(obj: &mut ErrorObject) -> Option<&mut Self> {
        match obj {
            ErrorObject::Context(v) => Some(v),
            _ => None,
        }
    }

    fn peel(obj: ErrorObject) -> Result<Self, ErrorObject> {
        match obj {
            ErrorObject::Context(v) => Ok(v),
            other => Err(other),
        }
    }
}

} // verus!
