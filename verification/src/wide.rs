//! The platform's wide string: 16-bit on some platforms, 32-bit on others.
//!
//! Which of the two it is, the caller says with a [`WideWidth`]; nothing
//! here looks at the platform.
use crate::error::{ConversionError, Failure, NulAt, NulError};
use crate::repr::{as_utf16, as_utf32, Repr};
use crate::terminated::{Utf16CString, Utf32CString};
use std::borrow::Cow;
use vstd::prelude::*;

verus! {

/// The width of the platform's wide character.
#[derive(Clone, Copy, Debug, PartialEq, Eq)]
pub enum WideWidth {
    /// Wide strings are UTF-16.
    Bits16,
    /// Wide strings are UTF-32.
    Bits32,
}

/// What a [`WideCStr`] holds: its kind and its payload.
pub enum WideUnits {
    Utf16(Seq<u16>),
    Utf32(Seq<u32>),
}

/// A terminated wide string of either width, borrowed or owned.
#[derive(Debug)]
pub enum WideCStr<'a> {
    Utf16(Cow<'a, Utf16CString>),
    Utf32(Cow<'a, Utf32CString>),
}

impl<'a> View for WideCStr<'a> {
    type V = WideUnits;

    open spec fn view(&self) -> WideUnits {
        match self {
            WideCStr::Utf16(s) => WideUnits::Utf16(s@),
            WideCStr::Utf32(s) => WideUnits::Utf32(s@),
        }
    }
}

/// What a [`WideNulError`] says.
pub enum WideNulAt {
    Utf16(NulAt<u16>),
    Utf32(NulAt<u32>),
}

/// Wide units of either width that cannot be terminated.
#[derive(Debug)]
pub enum WideNulError {
    Utf16(NulError<u16>),
    Utf32(NulError<u32>),
}

impl View for WideNulError {
    type V = WideNulAt;

    open spec fn view(&self) -> WideNulAt {
        match self {
            WideNulError::Utf16(e) => WideNulAt::Utf16(e@),
            WideNulError::Utf32(e) => WideNulAt::Utf32(e@),
        }
    }
}

impl WideNulAt {
    /// The index of the first terminator among the units.
    pub open spec fn position(self) -> int {
        match self {
            WideNulAt::Utf16(found) => found.position,
            WideNulAt::Utf32(found) => found.position,
        }
    }
}

impl WideNulError {
    /// The index of the first terminator among the units.
    pub fn nul_position(&self) -> (position: usize)
        ensures
            position == self@.position(),
    {
        match self {
            WideNulError::Utf16(e) => e.nul_position(),
            WideNulError::Utf32(e) => e.nul_position(),
        }
    }
}

/// A failure of the 16-bit conversion as one of the wide conversion.
pub open spec fn widen_failure16(failure: Failure<NulAt<u16>>) -> Failure<WideNulAt> {
    match failure {
        Failure::Nul(found) => Failure::Nul(WideNulAt::Utf16(found)),
        Failure::InvalidChar => Failure::InvalidChar,
        Failure::InvalidUChar16 => Failure::InvalidUChar16,
        Failure::InvalidUChar32 => Failure::InvalidUChar32,
    }
}

/// A failure of the 32-bit conversion as one of the wide conversion.
pub open spec fn widen_failure32(failure: Failure<NulAt<u32>>) -> Failure<WideNulAt> {
    match failure {
        Failure::Nul(found) => Failure::Nul(WideNulAt::Utf32(found)),
        Failure::InvalidChar => Failure::InvalidChar,
        Failure::InvalidUChar16 => Failure::InvalidUChar16,
        Failure::InvalidUChar32 => Failure::InvalidUChar32,
    }
}

/// The source as a terminated wide string: what [`as_utf16`] or
/// [`as_utf32`] gives, by the width.
pub open spec fn as_wide(source: Repr, width: WideWidth) -> Result<WideUnits, Failure<WideNulAt>> {
    match width {
        WideWidth::Bits16 => match as_utf16(source) {
            Ok(units) => Ok(WideUnits::Utf16(units)),
            Err(failure) => Err(widen_failure16(failure)),
        },
        WideWidth::Bits32 => match as_utf32(source) {
            Ok(units) => Ok(WideUnits::Utf32(units)),
            Err(failure) => Err(widen_failure32(failure)),
        },
    }
}

/// The result of a 16-bit conversion as one of the wide conversion; a
/// borrow stays a borrow.
pub fn widen16<'a>(r: Result<Cow<'a, Utf16CString>, ConversionError<NulError<u16>>>) -> (wide:
    Result<WideCStr<'a>, ConversionError<WideNulError>>)
    ensures
        match r {
            Ok(s) => wide == Ok::<WideCStr<'a>, ConversionError<WideNulError>>(
                WideCStr::Utf16(s),
            ),
            Err(e) => wide matches Err(w) && w@ == widen_failure16(e@),
        },
{
    match r {
        Ok(s) => Ok(WideCStr::Utf16(s)),
        Err(ConversionError::Nul(e)) => Err(ConversionError::Nul(WideNulError::Utf16(e))),
        Err(ConversionError::InvalidChar(e)) => Err(ConversionError::InvalidChar(e)),
        Err(ConversionError::InvalidUChar16(e)) => Err(ConversionError::InvalidUChar16(e)),
        Err(ConversionError::InvalidUChar32(e)) => Err(ConversionError::InvalidUChar32(e)),
    }
}

/// The result of a 32-bit conversion as one of the wide conversion; a
/// borrow stays a borrow.
pub fn widen32<'a>(r: Result<Cow<'a, Utf32CString>, ConversionError<NulError<u32>>>) -> (wide:
    Result<WideCStr<'a>, ConversionError<WideNulError>>)
    ensures
        match r {
            Ok(s) => wide == Ok::<WideCStr<'a>, ConversionError<WideNulError>>(
                WideCStr::Utf32(s),
            ),
            Err(e) => wide matches Err(w) && w@ == widen_failure32(e@),
        },
{
    match r {
        Ok(s) => Ok(WideCStr::Utf32(s)),
        Err(ConversionError::Nul(e)) => Err(ConversionError::Nul(WideNulError::Utf32(e))),
        Err(ConversionError::InvalidChar(e)) => Err(ConversionError::InvalidChar(e)),
        Err(ConversionError::InvalidUChar16(e)) => Err(ConversionError::InvalidUChar16(e)),
        Err(ConversionError::InvalidUChar32(e)) => Err(ConversionError::InvalidUChar32(e)),
    }
}

} // verus!
