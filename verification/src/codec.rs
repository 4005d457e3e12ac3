//! The text codec that the conversions rest on.
//!
//! Validating UTF-8 is `std`'s work; turning text into 16-bit and 32-bit
//! units and back is `widestring`'s. Nothing in this module is proved: each
//! function makes one call, and its contract says in terms of the
//! definitions of `vstd::utf8`, [`crate::utf16`] and [`crate::utf32`] what
//! the called function is documented to return.
use crate::utf16::{decode_utf16, encode_utf16, valid_utf16};
use crate::utf32::{decode_utf32, encode_utf32, valid_utf32};
use std::str::Utf8Error;
use std::string::FromUtf16Error;
use vstd::prelude::*;
use vstd::utf8::{decode_utf8, valid_utf8};
use widestring::FromUtf32Error;

verus! {

/// `std::str::Utf8Error`: why bytes are no UTF-8. Nothing is claimed of what
/// it holds.
#[verifier::external_type_specification]
#[verifier::external_body]
pub struct ExUtf8Error(Utf8Error);

/// `std::string::FromUtf16Error`: that units are no UTF-16. Nothing is
/// claimed of what it holds.
#[verifier::external_type_specification]
#[verifier::external_body]
pub struct ExFromUtf16Error(FromUtf16Error);

/// `widestring::FromUtf32Error`: that units are no UTF-32. It holds nothing.
#[verifier::external_type_specification]
#[verifier::external_body]
pub struct ExFromUtf32Error(FromUtf32Error);

/// `std::str::from_utf8`: the bytes read as text, without a copy.
///
/// Claimed: the call succeeds exactly on well-formed UTF-8, and the text it
/// then returns is the one that the bytes encode.
#[verifier::external_body]
pub(crate) fn text_of_utf8(bytes: &[u8]) -> (r: Result<&str, Utf8Error>)
    ensures
        match r {
            Ok(text) => valid_utf8(bytes@) && text@ == decode_utf8(bytes@),
            Err(_) => !valid_utf8(bytes@),
        },
{
    std::str::from_utf8(bytes)
}

/// `widestring::U16String::from_str`, and `into_vec` to take the units out:
/// the UTF-16 units of a text.
///
/// Claimed: the units are those of the text's scalars in order, a surrogate
/// pair for each scalar from `0x10000` on, and nothing is added behind them.
#[verifier::external_body]
pub(crate) fn utf16_of_text(text: &str) -> (units: Vec<u16>)
    ensures
        units@ == encode_utf16(text@),
{
    widestring::U16String::from_str(text).into_vec()
}

/// `widestring::U32String::from_str`, and `into_vec` to take the units out:
/// the UTF-32 units of a text.
///
/// Claimed: the units are the text's scalars in order, and nothing is added
/// behind them.
#[verifier::external_body]
pub(crate) fn utf32_of_text(text: &str) -> (units: Vec<u32>)
    ensures
        units@ == encode_utf32(text@),
{
    widestring::U32String::from_str(text).into_vec()
}

/// `widestring::U16Str::to_string`, on the units seen through
/// `U16Str::from_slice`: the text of UTF-16 units.
///
/// Claimed: the call succeeds exactly where no surrogate stands outside a
/// pair, and the text it then returns is the one that the units encode. A
/// zero among the units is a scalar like any other.
#[verifier::external_body]
pub(crate) fn text_of_utf16(units: &[u16]) -> (r: Result<String, FromUtf16Error>)
    ensures
        match r {
            Ok(text) => valid_utf16(units@) && text@ == decode_utf16(units@),
            Err(_) => !valid_utf16(units@),
        },
{
    widestring::U16Str::from_slice(units).to_string()
}

/// `widestring::U32Str::to_string`, on the units seen through
/// `U32Str::from_slice`: the text of UTF-32 units.
///
/// Claimed: the call succeeds exactly where every unit is a scalar, and the
/// text it then returns holds those scalars in order.
#[verifier::external_body]
pub(crate) fn text_of_utf32(units: &[u32]) -> (r: Result<String, FromUtf32Error>)
    ensures
        match r {
            Ok(text) => valid_utf32(units@) && text@ == decode_utf32(units@),
            Err(_) => !valid_utf32(units@),
        },
{
    widestring::U32Str::from_slice(units).to_string()
}

} // verus!
