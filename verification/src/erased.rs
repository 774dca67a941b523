//! Type-erased error handles and the downcast facility.
//!
//! An [`ErrorObject`] is a closed union over the catalog of failure
//! kinds: erasing a concrete value stores it in the variant belonging to
//! its type, and the downcast operations recover it by comparing
//! identity tokens and matching on the variant — no reinterpretation
//! outside the type system.  Because every variant holds plain owned
//! data, the one union serves the plain, cross-thread-transferable and
//! cross-thread-shareable roles alike.

use vstd::prelude::*;

use crate::error_trait::Error;
use crate::failures::{
    BorrowFailure, BorrowMutFailure, CharTryFromFailure, ContextFailure, DecodeUtf16Failure,
    FmtFailure, FromUtf16Failure, FromUtf8Failure, LayoutFailure, ParseBoolFailure,
    ParseCharFailure, ParseFloatFailure, ParseIntFailure, TryFromIntFailure, TryFromSliceFailure,
    Utf8Failure,
};
use crate::typeinfo::TypeInfo;

verus! {

/// A type-erased handle to a value satisfying the [`Error`] contract.
pub enum ErrorObject {
    /// Holds a [`ParseBoolFailure`].
    ParseBool(ParseBoolFailure),
    /// Holds a [`Utf8Failure`].
    Utf8(Utf8Failure),
    /// Holds a [`ParseIntFailure`].
    ParseInt(ParseIntFailure),
    /// Holds a [`ParseFloatFailure`].
    ParseFloat(ParseFloatFailure),
    /// Holds a [`FmtFailure`].
    Fmt(FmtFailure),
    /// Holds a [`BorrowFailure`].
    Borrow(BorrowFailure),
    /// Holds a [`BorrowMutFailure`].
    BorrowMut(BorrowMutFailure),
    /// Holds a [`ParseCharFailure`].
    ParseChar(ParseCharFailure),
    /// Holds a [`DecodeUtf16Failure`].
    DecodeUtf16(DecodeUtf16Failure),
    /// Holds a [`LayoutFailure`].
    Layout(LayoutFailure),
    /// Holds a [`TryFromIntFailure`].
    TryFromInt(TryFromIntFailure),
    /// Holds a [`TryFromSliceFailure`].
    TryFromSlice(TryFromSliceFailure),
    /// Holds a [`CharTryFromFailure`].
    CharTryFrom(CharTryFromFailure),
    /// Holds a [`FromUtf8Failure`].
    FromUtf8(FromUtf8Failure),
    /// Holds a [`FromUtf16Failure`].
    FromUtf16(FromUtf16Failure),
    /// Holds a [`ContextFailure`].
    Context(ContextFailure),
}

/// A concrete error type that can stand behind an erasure.
///
/// `wrap_spec` names the erasure holding a given value; the executable
/// operations erase a value and recover it again, all pinned to that one
/// specification.  The two proof obligations record that erasure loses
/// nothing: it is injective, and the erasure carries the type's own
/// identity token.
pub trait Erasable: Error + TypeInfo + Sized {
    /// The erasure that holds this value.
    spec fn wrap_spec(self) -> ErrorObject;

    /// Erasing distinct values yields distinct erasures.
    proof fn wrap_spec_injective(a: Self, b: Self)
        requires
            a.wrap_spec() == b.wrap_spec(),
        ensures
            a == b,
    ;

    /// The erasure of a value carries this type's identity token.
    proof fn wrap_spec_token(v: Self)
        ensures
            v.wrap_spec().spec_token() == Self::spec_token(),
    ;

    /// Erases a value into the handle that owns it.
    fn erase(self) -> (obj: ErrorObject)
        ensures
            obj == self.wrap_spec(),
    ;

    /// Recovers a borrowed value of this type from an erasure.
    fn peel_ref(obj: &ErrorObject) -> (r: Option<&Self>)
        ensures
            r matches Some(v) ==> *obj == (*v).wrap_spec(),
            r is Some <==> obj.spec_token() == Self::spec_token(),
    ;

    /// Recovers an exclusive borrowed value of this type from an erasure.
    fn peel_mut(obj: &mut ErrorObject) -> (r: Option<&mut Self>)
        ensures
            r is Some <==> old(obj).spec_token() == Self::spec_token(),
            r is Some ==> *old(obj) == (*r.unwrap()).wrap_spec(),
            r is Some ==> *final(obj) == (*final(r.unwrap())).wrap_spec(),
            r is None ==> *final(obj) == *old(obj),
    ;

    /// Recovers an owned value of this type, or hands the erasure back
    /// unchanged.
    fn peel(obj: ErrorObject) -> (r: Result<Self, ErrorObject>)
        ensures
            r matches Ok(v) ==> obj == v.wrap_spec(),
            r matches Err(e) ==> e == obj,
            r is Ok <==> obj.spec_token() == Self::spec_token(),
    ;
}

impl ErrorObject {
    /// The identity token of the value this erasure holds.
    pub open spec fn spec_token(&self) -> u64 {
        match self {
            ErrorObject::ParseBool(_) => ParseBoolFailure::spec_token(),
            ErrorObject::Utf8(_) => Utf8Failure::spec_token(),
            ErrorObject::ParseInt(_) => ParseIntFailure::spec_token(),
            ErrorObject::ParseFloat(_) => ParseFloatFailure::spec_token(),
            ErrorObject::Fmt(_) => FmtFailure::spec_token(),
            ErrorObject::Borrow(_) => BorrowFailure::spec_token(),
            ErrorObject::BorrowMut(_) => BorrowMutFailure::spec_token(),
            ErrorObject::ParseChar(_) => ParseCharFailure::spec_token(),
            ErrorObject::DecodeUtf16(_) => DecodeUtf16Failure::spec_token(),
            ErrorObject::Layout(_) => LayoutFailure::spec_token(),
            ErrorObject::TryFromInt(_) => TryFromIntFailure::spec_token(),
            ErrorObject::TryFromSlice(_) => TryFromSliceFailure::spec_token(),
            ErrorObject::CharTryFrom(_) => CharTryFromFailure::spec_token(),
            ErrorObject::FromUtf8(_) => FromUtf8Failure::spec_token(),
            ErrorObject::FromUtf16(_) => FromUtf16Failure::spec_token(),
            ErrorObject::Context(_) => ContextFailure::spec_token(),
        }
    }

    /// Returns the identity token of the value this erasure holds.
    pub fn token_of(&self) -> (t: u64)
        ensures
            t == self.spec_token(),
    {
        match self {
            ErrorObject::ParseBool(_) => ParseBoolFailure::token(),
            ErrorObject::Utf8(_) => Utf8Failure::token(),
            ErrorObject::ParseInt(_) => ParseIntFailure::token(),
            ErrorObject::ParseFloat(_) => ParseFloatFailure::token(),
            ErrorObject::Fmt(_) => FmtFailure::token(),
            ErrorObject::Borrow(_) => BorrowFailure::token(),
            ErrorObject::BorrowMut(_) => BorrowMutFailure::token(),
            ErrorObject::ParseChar(_) => ParseCharFailure::token(),
            ErrorObject::DecodeUtf16(_) => DecodeUtf16Failure::token(),
            ErrorObject::Layout(_) => LayoutFailure::token(),
            ErrorObject::TryFromInt(_) => TryFromIntFailure::token(),
            ErrorObject::TryFromSlice(_) => TryFromSliceFailure::token(),
            ErrorObject::CharTryFrom(_) => CharTryFromFailure::token(),
            ErrorObject::FromUtf8(_) => FromUtf8Failure::token(),
            ErrorObject::FromUtf16(_) => FromUtf16Failure::token(),
            ErrorObject::Context(_) => ContextFailure::token(),
        }
    }

    /// True iff this erasure holds a value of type `T`.
    pub open spec fn holds<T: TypeInfo>(&self) -> bool {
        self.spec_token() == T::spec_token()
    }

    /// True iff the runtime identity stored in the erasure equals the
    /// identity token of `T`.
    pub fn is<T: Erasable>(&self) -> (b: bool)
        ensures
            b == self.holds::<T>(),
    {
        self.token_of() == T::token()
    }

    /// Recovers a shared reference to the erased value when its type is
    /// `T`; reports absence otherwise.
    pub fn downcast_ref<T: Erasable>(&self) -> (r: Option<&T>)
        ensures
            r matches Some(v) ==> *self == (*v).wrap_spec(),
            r is Some <==> self.holds::<T>(),
    {
        T::peel_ref(self)
    }

    /// Recovers an exclusive reference to the erased value when its type
    /// is `T`; reports absence otherwise and leaves the erasure
    /// unchanged.
    pub fn downcast_mut<T: Erasable>(&mut self) -> (r: Option<&mut T>)
        ensures
            r is Some <==> old(self).holds::<T>(),
            r is Some ==> *old(self) == (*r.unwrap()).wrap_spec(),
            r is Some ==> *final(self) == (*final(r.unwrap())).wrap_spec(),
            r is None ==> *final(self) == *old(self),
    {
        T::peel_mut(self)
    }

    /// Consumes the erasure: on a type match, transfers ownership of the
    /// concrete value to the caller; on a mismatch, returns the original
    /// erasure completely unchanged.
    pub fn downcast<T: Erasable>(self) -> (r: Result<T, ErrorObject>)
        ensures
            r matches Ok(v) ==> self == v.wrap_spec(),
            r matches Err(e) ==> e == self,
            r is Ok <==> self.holds::<T>(),
    {
        T::peel(self)
    }
}

/// An erasure satisfies the [`Error`] contract itself, by forwarding
/// every accessor to the value it holds.
impl Error for ErrorObject {
    open spec fn spec_message(&self) -> Seq<char> {
        match self {
            ErrorObject::ParseBool(v) => v.spec_message(),
            ErrorObject::Utf8(v) => v.spec_message(),
            ErrorObject::ParseInt(v) => v.spec_message(),
            ErrorObject::ParseFloat(v) => v.spec_message(),
            ErrorObject::Fmt(v) => v.spec_message(),
            ErrorObject::Borrow(v) => v.spec_message(),
            ErrorObject::BorrowMut(v) => v.spec_message(),
            ErrorObject::ParseChar(v) => v.spec_message(),
            ErrorObject::DecodeUtf16(v) => v.spec_message(),
            ErrorObject::Layout(v) => v.spec_message(),
            ErrorObject::TryFromInt(v) => v.spec_message(),
            ErrorObject::TryFromSlice(v) => v.spec_message(),
            ErrorObject::CharTryFrom(v) => v.spec_message(),
            ErrorObject::FromUtf8(v) => v.spec_message(),
            ErrorObject::FromUtf16(v) => v.spec_message(),
            ErrorObject::Context(v) => v.spec_message(),
        }
    }

    open spec fn spec_diagnostic(&self) -> Seq<char> {
        match self {
            ErrorObject::ParseBool(v) => v.spec_diagnostic(),
            ErrorObject::Utf8(v) => v.spec_diagnostic(),
            ErrorObject::ParseInt(v) => v.spec_diagnostic(),
            ErrorObject::ParseFloat(v) => v.spec_diagnostic(),
            ErrorObject::Fmt(v) => v.spec_diagnostic(),
            ErrorObject::Borrow(v) => v.spec_diagnostic(),
            ErrorObject::BorrowMut(v) => v.spec_diagnostic(),
            ErrorObject::ParseChar(v) => v.spec_diagnostic(),
            ErrorObject::DecodeUtf16(v) => v.spec_diagnostic(),
            ErrorObject::Layout(v) => v.spec_diagnostic(),
            ErrorObject::TryFromInt(v) => v.spec_diagnostic(),
            ErrorObject::TryFromSlice(v) => v.spec_diagnostic(),
            ErrorObject::CharTryFrom(v) => v.spec_diagnostic(),
            ErrorObject::FromUtf8(v) => v.spec_diagnostic(),
            ErrorObject::FromUtf16(v) => v.spec_diagnostic(),
            ErrorObject::Context(v) => v.spec_diagnostic(),
        }
    }

    open spec fn spec_source(&self) -> Option<ErrorObject> {
        match self {
            ErrorObject::ParseBool(v) => v.spec_source(),
            ErrorObject::Utf8(v) => v.spec_source(),
            ErrorObject::ParseInt(v) => v.spec_source(),
            ErrorObject::ParseFloat(v) => v.spec_source(),
            ErrorObject::Fmt(v) => v.spec_source(),
            ErrorObject::Borrow(v) => v.spec_source(),
            ErrorObject::BorrowMut(v) => v.spec_source(),
            ErrorObject::ParseChar(v) => v.spec_source(),
            ErrorObject::DecodeUtf16(v) => v.spec_source(),
            ErrorObject::Layout(v) => v.spec_source(),
            ErrorObject::TryFromInt(v) => v.spec_source(),
            ErrorObject::TryFromSlice(v) => v.spec_source(),
            ErrorObject::CharTryFrom(v) => v.spec_source(),
            ErrorObject::FromUtf8(v) => v.spec_source(),
            ErrorObject::FromUtf16(v) => v.spec_source(),
            ErrorObject::Context(v) => v.spec_source(),
        }
    }

    fn message(&self) -> &str {
        match self {
            ErrorObject::ParseBool(v) => v.message(),
            ErrorObject::Utf8(v) => v.message(),
            ErrorObject::ParseInt(v) => v.message(),
            ErrorObject::ParseFloat(v) => v.message(),
            ErrorObject::Fmt(v) => v.message(),
            ErrorObject::Borrow(v) => v.message(),
            ErrorObject::BorrowMut(v) => v.message(),
            ErrorObject::ParseChar(v) => v.message(),
            ErrorObject::DecodeUtf16(v) => v.message(),
            ErrorObject::Layout(v) => v.message(),
            ErrorObject::TryFromInt(v) => v.message(),
            ErrorObject::TryFromSlice(v) => v.message(),
            ErrorObject::CharTryFrom(v) => v.message(),
            ErrorObject::FromUtf8(v) => v.message(),
            ErrorObject::FromUtf16(v) => v.message(),
            ErrorObject::Context(v) => v.message(),
        }
    }

    fn diagnostic(&self) -> &str {
        match self {
            ErrorObject::ParseBool(v) => v.diagnostic(),
            ErrorObject::Utf8(v) => v.diagnostic(),
            ErrorObject::ParseInt(v) => v.diagnostic(),
            ErrorObject::ParseFloat(v) => v.diagnostic(),
            ErrorObject::Fmt(v) => v.diagnostic(),
            ErrorObject::Borrow(v) => v.diagnostic(),
            ErrorObject::BorrowMut(v) => v.diagnostic(),
            ErrorObject::ParseChar(v) => v.diagnostic(),
            ErrorObject::DecodeUtf16(v) => v.diagnostic(),
            ErrorObject::Layout(v) => v.diagnostic(),
            ErrorObject::TryFromInt(v) => v.diagnostic(),
            ErrorObject::TryFromSlice(v) => v.diagnostic(),
            ErrorObject::CharTryFrom(v) => v.diagnostic(),
            ErrorObject::FromUtf8(v) => v.diagnostic(),
            ErrorObject::FromUtf16(v) => v.diagnostic(),
            ErrorObject::Context(v) => v.diagnostic(),
        }
    }

    fn source(&self) -> Option<&ErrorObject> {
        match self {
            ErrorObject::ParseBool(v) => v.source(),
            ErrorObject::Utf8(v) => v.source(),
            ErrorObject::ParseInt(v) => v.source(),
            ErrorObject::ParseFloat(v) => v.source(),
            ErrorObject::Fmt(v) => v.source(),
            ErrorObject::Borrow(v) => v.source(),
            ErrorObject::BorrowMut(v) => v.source(),
            ErrorObject::ParseChar(v) => v.source(),
            ErrorObject::DecodeUtf16(v) => v.source(),
            ErrorObject::Layout(v) => v.source(),
            ErrorObject::TryFromInt(v) => v.source(),
            ErrorObject::TryFromSlice(v) => v.source(),
            ErrorObject::CharTryFrom(v) => v.source(),
            ErrorObject::FromUtf8(v) => v.source(),
            ErrorObject::FromUtf16(v) => v.source(),
            ErrorObject::Context(v) => v.source(),
        }
    }
}


/// Erasing a value and then asking for its own type always succeeds, and
/// what comes back is the original content: the erasure of `v` holds type
/// `T`, and a recovered value whose erasure equals `v`'s is `v` itself.
pub proof fn lemma_erase_roundtrip<T: Erasable>(v: T, w: T)
    ensures
        v.wrap_spec().holds::<T>(),
        v.wrap_spec() == w.wrap_spec() ==> v == w,
{
    T::wrap_spec_token(v);
    if v.wrap_spec() == w.wrap_spec() {
        T::wrap_spec_injective(v, w);
    }
}

/// Erasing a value of one type and asking for a type with a different
/// identity token always reports absence.
pub proof fn lemma_cross_type_miss<T: Erasable, U: Erasable>(v: T)
    requires
        T::spec_token() != U::spec_token(),
    ensures
        !v.wrap_spec().holds::<U>(),
{
    T::wrap_spec_token(v);
}

/// `is` agrees exactly with `downcast_ref`: their contracts pin both
/// results to whether the erasure holds a value of type `T`, so the flag
/// is true exactly when a reference comes back.
pub proof fn lemma_is_agrees_with_downcast_ref<T: Erasable>(e: ErrorObject, b: bool, r: Option<&T>)
    requires
        b == e.holds::<T>(),
        r is Some <==> e.holds::<T>(),
    ensures
        b == (r is Some),
{
}

} // verus!
