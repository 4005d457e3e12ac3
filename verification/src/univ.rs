//! One interface over the string kinds: each converts to each.
use crate::codec::{text_of_utf16, text_of_utf32, text_of_utf8, utf16_of_text, utf32_of_text};
use crate::error::{ConversionError, Failure, NulAt, NulError};
use crate::repr::{as_narrow, as_text, as_utf16, as_utf32, terminate, Repr};
use crate::terminated::{NarrowCString, Terminated, Utf16CString, Utf32CString};
use crate::utf16::encode_utf16;
use crate::utf32::encode_utf32;
use crate::wide::{as_wide, widen16, widen32, WideCStr, WideNulError, WideWidth};
use std::borrow::Cow;
use vstd::prelude::*;
use vstd::slice::slice_to_vec;
use vstd::utf8::encode_utf8;

verus! {

/// A string that converts to every kind of string.
///
/// Converting to the kind that the string already is borrows it and cannot
/// fail. Every other conversion reads the source as text, which fails where
/// the source is ill-formed in its encoding, and writes the text in the
/// target's encoding, which fails for a terminated target where the units
/// would hold a terminator. A conversion that fails has built nothing.
pub trait UnivString {
    /// The kind of this string and what it holds.
    spec fn repr(&self) -> Repr;

    /// This string as a terminated string of bytes.
    fn to_cstr(&self) -> (r: Result<Cow<'_, NarrowCString>, ConversionError<NulError<u8>>>)
        ensures
            match as_narrow(self.repr()) {
                Ok(bytes) => r matches Ok(s) && s@ == bytes,
                Err(failure) => r matches Err(e) && e@ == failure,
            },
            self.repr() is Narrow ==> r matches Ok(Cow::Borrowed(_)),
    ;

    /// This string as a terminated string of UTF-16 units.
    fn to_ucstr16(&self) -> (r: Result<Cow<'_, Utf16CString>, ConversionError<NulError<u16>>>)
        ensures
            match as_utf16(self.repr()) {
                Ok(units) => r matches Ok(s) && s@ == units,
                Err(failure) => r matches Err(e) && e@ == failure,
            },
            self.repr() is Utf16 ==> r matches Ok(Cow::Borrowed(_)),
    ;

    /// This string as a terminated string of UTF-32 units.
    fn to_ucstr32(&self) -> (r: Result<Cow<'_, Utf32CString>, ConversionError<NulError<u32>>>)
        ensures
            match as_utf32(self.repr()) {
                Ok(units) => r matches Ok(s) && s@ == units,
                Err(failure) => r matches Err(e) && e@ == failure,
            },
            self.repr() is Utf32 ==> r matches Ok(Cow::Borrowed(_)),
    ;

    /// This string as UTF-8 text.
    fn to_string(&self) -> (r: Result<Cow<'_, str>, ConversionError<NulError<u8>>>)
        ensures
            match as_text::<NulAt<u8>>(self.repr()) {
                Ok(chars) => r matches Ok(s) && s@ == chars,
                Err(failure) => r matches Err(e) && e@ == failure,
            },
            self.repr() is Text ==> r matches Ok(Cow::Borrowed(_)),
    ;

    /// This string as a terminated wide string of the given width.
    fn to_wcstr(&self, width: WideWidth) -> (r: Result<WideCStr<'_>, ConversionError<WideNulError>>)
        ensures
            match as_wide(self.repr(), width) {
                Ok(units) => r matches Ok(s) && s@ == units,
                Err(failure) => r matches Err(e) && e@ == failure,
            },
            self.repr() is Utf16 && width is Bits16 ==> r matches Ok(
                WideCStr::Utf16(Cow::Borrowed(_)),
            ),
            self.repr() is Utf32 && width is Bits32 ==> r matches Ok(
                WideCStr::Utf32(Cow::Borrowed(_)),
            ),
    ;
}

/// The UTF-8 bytes of `text`, terminated.
fn narrow_of_text(text: &str) -> (r: Result<NarrowCString, NulError<u8>>)
    ensures
        match terminate(encode_utf8(text@)) {
            Ok(bytes) => r matches Ok(s) && s@ == bytes,
            Err(failure) => r matches Err(e) && Failure::Nul(e@) == failure,
        },
{
    Terminated::new(slice_to_vec(text.as_bytes()))
}

/// The UTF-16 units of `text`, terminated.
fn utf16_of_str(text: &str) -> (r: Result<Utf16CString, NulError<u16>>)
    ensures
        match terminate(encode_utf16(text@)) {
            Ok(units) => r matches Ok(s) && s@ == units,
            Err(failure) => r matches Err(e) && Failure::Nul(e@) == failure,
        },
{
    Terminated::new(utf16_of_text(text))
}

/// The UTF-32 units of `text`, terminated.
fn utf32_of_str(text: &str) -> (r: Result<Utf32CString, NulError<u32>>)
    ensures
        match terminate(encode_utf32(text@)) {
            Ok(units) => r matches Ok(s) && s@ == units,
            Err(failure) => r matches Err(e) && Failure::Nul(e@) == failure,
        },
{
    Terminated::new(utf32_of_text(text))
}

impl UnivString for str {
    open spec fn repr(&self) -> Repr {
        Repr::Text(self@)
    }

    fn to_cstr(&self) -> (r: Result<Cow<'_, NarrowCString>, ConversionError<NulError<u8>>>) {
        match narrow_of_text(self) {
            Ok(s) => Ok(Cow::Owned(s)),
            Err(e) => Err(ConversionError::Nul(e)),
        }
    }

    fn to_ucstr16(&self) -> (r: Result<Cow<'_, Utf16CString>, ConversionError<NulError<u16>>>) {
        match utf16_of_str(self) {
            Ok(s) => Ok(Cow::Owned(s)),
            Err(e) => Err(ConversionError::Nul(e)),
        }
    }

    fn to_ucstr32(&self) -> (r: Result<Cow<'_, Utf32CString>, ConversionError<NulError<u32>>>) {
        match utf32_of_str(self) {
            Ok(s) => Ok(Cow::Owned(s)),
            Err(e) => Err(ConversionError::Nul(e)),
        }
    }

    fn to_string(&self) -> (r: Result<Cow<'_, str>, ConversionError<NulError<u8>>>) {
        Ok(Cow::Borrowed(self))
    }

    fn to_wcstr(&self, width: WideWidth) -> (r: Result<WideCStr<'_>, ConversionError<WideNulError>>) {
        match width {
            WideWidth::Bits16 => widen16(self.to_ucstr16()),
            WideWidth::Bits32 => widen32(self.to_ucstr32()),
        }
    }
}

impl UnivString for String {
    open spec fn repr(&self) -> Repr {
        Repr::Text(self@)
    }

    fn to_cstr(&self) -> (r: Result<Cow<'_, NarrowCString>, ConversionError<NulError<u8>>>) {
        self.as_str().to_cstr()
    }

    fn to_ucstr16(&self) -> (r: Result<Cow<'_, Utf16CString>, ConversionError<NulError<u16>>>) {
        self.as_str().to_ucstr16()
    }

    fn to_ucstr32(&self) -> (r: Result<Cow<'_, Utf32CString>, ConversionError<NulError<u32>>>) {
        self.as_str().to_ucstr32()
    }

    fn to_string(&self) -> (r: Result<Cow<'_, str>, ConversionError<NulError<u8>>>) {
        Ok(Cow::Borrowed(self.as_str()))
    }

    fn to_wcstr(&self, width: WideWidth) -> (r: Result<WideCStr<'_>, ConversionError<WideNulError>>) {
        self.as_str().to_wcstr(width)
    }
}

impl UnivString for NarrowCString {
    open spec fn repr(&self) -> Repr {
        Repr::Narrow(self@)
    }

    fn to_cstr(&self) -> (r: Result<Cow<'_, NarrowCString>, ConversionError<NulError<u8>>>)
        ensures
            r == Ok::<Cow<'_, NarrowCString>, ConversionError<NulError<u8>>>(Cow::Borrowed(self)),
    {
        Ok(Cow::Borrowed(self))
    }

    fn to_ucstr16(&self) -> (r: Result<Cow<'_, Utf16CString>, ConversionError<NulError<u16>>>) {
        match text_of_utf8(self.as_slice()) {
            Ok(text) => text.to_ucstr16(),
            Err(e) => Err(ConversionError::InvalidChar(e)),
        }
    }

    fn to_ucstr32(&self) -> (r: Result<Cow<'_, Utf32CString>, ConversionError<NulError<u32>>>) {
        match text_of_utf8(self.as_slice()) {
            Ok(text) => text.to_ucstr32(),
            Err(e) => Err(ConversionError::InvalidChar(e)),
        }
    }

    fn to_string(&self) -> (r: Result<Cow<'_, str>, ConversionError<NulError<u8>>>)
        ensures
            r is Ok ==> r matches Ok(Cow::Borrowed(_)),
    {
        match text_of_utf8(self.as_slice()) {
            Ok(text) => Ok(Cow::Borrowed(text)),
            Err(e) => Err(ConversionError::InvalidChar(e)),
        }
    }

    fn to_wcstr(&self, width: WideWidth) -> (r: Result<WideCStr<'_>, ConversionError<WideNulError>>) {
        match width {
            WideWidth::Bits16 => widen16(self.to_ucstr16()),
            WideWidth::Bits32 => widen32(self.to_ucstr32()),
        }
    }
}

impl UnivString for Utf16CString {
    open spec fn repr(&self) -> Repr {
        Repr::Utf16(self@)
    }

    fn to_cstr(&self) -> (r: Result<Cow<'_, NarrowCString>, ConversionError<NulError<u8>>>) {
        match text_of_utf16(self.as_slice()) {
            Ok(text) => match narrow_of_text(text.as_str()) {
                Ok(s) => Ok(Cow::Owned(s)),
                Err(e) => Err(ConversionError::Nul(e)),
            },
            Err(e) => Err(ConversionError::InvalidUChar16(e)),
        }
    }

    fn to_ucstr16(&self) -> (r: Result<Cow<'_, Utf16CString>, ConversionError<NulError<u16>>>)
        ensures
            r == Ok::<Cow<'_, Utf16CString>, ConversionError<NulError<u16>>>(Cow::Borrowed(self)),
    {
        Ok(Cow::Borrowed(self))
    }

    fn to_ucstr32(&self) -> (r: Result<Cow<'_, Utf32CString>, ConversionError<NulError<u32>>>) {
        match text_of_utf16(self.as_slice()) {
            Ok(text) => match utf32_of_str(text.as_str()) {
                Ok(s) => Ok(Cow::Owned(s)),
                Err(e) => Err(ConversionError::Nul(e)),
            },
            Err(e) => Err(ConversionError::InvalidUChar16(e)),
        }
    }

    fn to_string(&self) -> (r: Result<Cow<'_, str>, ConversionError<NulError<u8>>>) {
        match text_of_utf16(self.as_slice()) {
            Ok(text) => Ok(Cow::Owned(text)),
            Err(e) => Err(ConversionError::InvalidUChar16(e)),
        }
    }

    fn to_wcstr(&self, width: WideWidth) -> (r: Result<WideCStr<'_>, ConversionError<WideNulError>>)
        ensures
            width is Bits16 ==> r == Ok::<WideCStr<'_>, ConversionError<WideNulError>>(
                WideCStr::Utf16(Cow::Borrowed(self)),
            ),
    {
        match width {
            WideWidth::Bits16 => Ok(WideCStr::Utf16(Cow::Borrowed(self))),
            WideWidth::Bits32 => widen32(self.to_ucstr32()),
        }
    }
}

impl UnivString for Utf32CString {
    open spec fn repr(&self) -> Repr {
        Repr::Utf32(self@)
    }

    fn to_cstr(&self) -> (r: Result<Cow<'_, NarrowCString>, ConversionError<NulError<u8>>>) {
        match text_of_utf32(self.as_slice()) {
            Ok(text) => match narrow_of_text(text.as_str()) {
                Ok(s) => Ok(Cow::Owned(s)),
                Err(e) => Err(ConversionError::Nul(e)),
            },
            Err(e) => Err(ConversionError::InvalidUChar32(e)),
        }
    }

    fn to_ucstr16(&self) -> (r: Result<Cow<'_, Utf16CString>, ConversionError<NulError<u16>>>) {
        match text_of_utf32(self.as_slice()) {
            Ok(text) => match utf16_of_str(text.as_str()) {
                Ok(s) => Ok(Cow::Owned(s)),
                Err(e) => Err(ConversionError::Nul(e)),
            },
            Err(e) => Err(ConversionError::InvalidUChar32(e)),
        }
    }

    fn to_ucstr32(&self) -> (r: Result<Cow<'_, Utf32CString>, ConversionError<NulError<u32>>>)
        ensures
            r == Ok::<Cow<'_, Utf32CString>, ConversionError<NulError<u32>>>(Cow::Borrowed(self)),
    {
        Ok(Cow::Borrowed(self))
    }

    fn to_string(&self) -> (r: Result<Cow<'_, str>, ConversionError<NulError<u8>>>) {
        match text_of_utf32(self.as_slice()) {
            Ok(text) => Ok(Cow::Owned(text)),
            Err(e) => Err(ConversionError::InvalidUChar32(e)),
        }
    }

    fn to_wcstr(&self, width: WideWidth) -> (r: Result<WideCStr<'_>, ConversionError<WideNulError>>)
        ensures
            width is Bits32 ==> r == Ok::<WideCStr<'_>, ConversionError<WideNulError>>(
                WideCStr::Utf32(Cow::Borrowed(self)),
            ),
    {
        match width {
            WideWidth::Bits16 => widen16(self.to_ucstr16()),
            WideWidth::Bits32 => Ok(WideCStr::Utf32(Cow::Borrowed(self))),
        }
    }
}

} // verus!
