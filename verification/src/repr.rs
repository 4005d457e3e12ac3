//! The model of a conversion: what each kind of source gives for each kind
//! of target.
use crate::error::{Failure, NulAt};
use crate::unit::{first_nul, is_first_nul, lemma_first_nul, Unit};
use crate::utf16::{
    decode_utf16, encode_utf16, lemma_decode_encode_utf16, lemma_encode_decode_utf16,
    lemma_encode_utf16_nul, lemma_lone_high_surrogate_invalid, lemma_valid_utf16_iff_paired,
    lone_high_surrogate_at, lone_low_surrogate_at, valid_utf16,
};
use crate::utf32::{
    decode_utf32, encode_utf32, lemma_decode_encode_utf32, lemma_encode_decode_utf32,
    lemma_encode_utf32_nul, lemma_non_scalar_invalid, valid_utf32,
};
use crate::utf8::lemma_encode_utf8_nul;
use vstd::prelude::*;
use vstd::utf8::{
    decode_utf8, decode_utf8_encode_utf8, encode_utf8, encode_utf8_decode_utf8,
    encode_utf8_valid_utf8, is_scalar, valid_utf8,
};

verus! {

/// What a string-like value is to the conversions: its kind, and what it
/// holds.
///
/// A text is unterminated and may hold the scalar zero. The three others
/// are the payloads of terminated strings, the units before the terminator;
/// they may be ill-formed in their encoding.
pub enum Repr {
    /// UTF-8 text, by its scalars.
    Text(Seq<char>),
    /// A terminated string of bytes, taken for UTF-8 where it is read.
    Narrow(Seq<u8>),
    /// A terminated string of UTF-16 units.
    Utf16(Seq<u16>),
    /// A terminated string of UTF-32 units.
    Utf32(Seq<u32>),
}

impl Repr {
    /// No payload of a terminated string holds the terminator.
    pub open spec fn well_formed(self) -> bool {
        match self {
            Repr::Text(_) => true,
            Repr::Narrow(bytes) => first_nul(bytes) is None,
            Repr::Utf16(units) => first_nul(units) is None,
            Repr::Utf32(units) => first_nul(units) is None,
        }
    }
}

/// The units as the payload of a terminated string, unless one of them is
/// the terminator.
pub open spec fn terminate<U: Unit>(units: Seq<U>) -> Result<Seq<U>, Failure<NulAt<U>>> {
    match first_nul(units) {
        Some(at) => Err(Failure::Nul(NulAt { position: at, units })),
        None => Ok(units),
    }
}

/// The source as text: itself if it is one, else what its units decode to,
/// unless they are ill-formed.
pub open spec fn as_text<N>(source: Repr) -> Result<Seq<char>, Failure<N>> {
    match source {
        Repr::Text(chars) => Ok(chars),
        Repr::Narrow(bytes) => if valid_utf8(bytes) {
            Ok(decode_utf8(bytes))
        } else {
            Err(Failure::InvalidChar)
        },
        Repr::Utf16(units) => if valid_utf16(units) {
            Ok(decode_utf16(units))
        } else {
            Err(Failure::InvalidUChar16)
        },
        Repr::Utf32(units) => if valid_utf32(units) {
            Ok(decode_utf32(units))
        } else {
            Err(Failure::InvalidUChar32)
        },
    }
}

/// The source as a terminated string of bytes: itself if it is one, else
/// the UTF-8 bytes of its text, unless they hold a zero.
pub open spec fn as_narrow(source: Repr) -> Result<Seq<u8>, Failure<NulAt<u8>>> {
    match source {
        Repr::Narrow(bytes) => Ok(bytes),
        _ => match as_text::<NulAt<u8>>(source) {
            Ok(chars) => terminate(encode_utf8(chars)),
            Err(failure) => Err(failure),
        },
    }
}

/// The source as a terminated string of 16-bit units: itself if it is one,
/// else the UTF-16 units of its text, unless they hold a zero.
pub open spec fn as_utf16(source: Repr) -> Result<Seq<u16>, Failure<NulAt<u16>>> {
    match source {
        Repr::Utf16(units) => Ok(units),
        _ => match as_text::<NulAt<u16>>(source) {
            Ok(chars) => terminate(encode_utf16(chars)),
            Err(failure) => Err(failure),
        },
    }
}

/// The source as a terminated string of 32-bit units: itself if it is one,
/// else the UTF-32 units of its text, unless they hold a zero.
pub open spec fn as_utf32(source: Repr) -> Result<Seq<u32>, Failure<NulAt<u32>>> {
    match source {
        Repr::Utf32(units) => Ok(units),
        _ => match as_text::<NulAt<u32>>(source) {
            Ok(chars) => terminate(encode_utf32(chars)),
            Err(failure) => Err(failure),
        },
    }
}

/// A conversion keeps the text: what it returns reads as the text that the
/// source reads as, with nothing cut off, put in or changed.
pub proof fn theorem_conversion_keeps_text(source: Repr)
    ensures
        as_narrow(source) matches Ok(bytes) ==> as_text::<NulAt<u8>>(Repr::Narrow(bytes))
            == as_text::<NulAt<u8>>(source),
        as_utf16(source) matches Ok(units) ==> as_text::<NulAt<u8>>(Repr::Utf16(units))
            == as_text::<NulAt<u8>>(source),
        as_utf32(source) matches Ok(units) ==> as_text::<NulAt<u8>>(Repr::Utf32(units))
            == as_text::<NulAt<u8>>(source),
{
    if let Ok(chars) = as_text::<NulAt<u8>>(source) {
        encode_utf8_valid_utf8(chars);
        encode_utf8_decode_utf8(chars);
        lemma_encode_decode_utf16(chars);
        lemma_encode_decode_utf32(chars);
    }
}

/// Well-formed units go to text and back unchanged: the text of a
/// terminated string converts to the units that the string holds.
pub proof fn theorem_text_converts_back(source: Repr)
    requires
        source.well_formed(),
    ensures
        as_text::<NulAt<u8>>(source) matches Ok(chars) ==> match source {
            Repr::Text(_) => true,
            Repr::Narrow(bytes) => as_narrow(Repr::Text(chars)) == Ok::<
                Seq<u8>,
                Failure<NulAt<u8>>,
            >(bytes),
            Repr::Utf16(units) => as_utf16(Repr::Text(chars)) == Ok::<
                Seq<u16>,
                Failure<NulAt<u16>>,
            >(units),
            Repr::Utf32(units) => as_utf32(Repr::Text(chars)) == Ok::<
                Seq<u32>,
                Failure<NulAt<u32>>,
            >(units),
        },
{
    match source {
        Repr::Text(_) => {},
        Repr::Narrow(bytes) => {
            if valid_utf8(bytes) {
                decode_utf8_encode_utf8(bytes);
            }
        },
        Repr::Utf16(units) => {
            if valid_utf16(units) {
                lemma_decode_encode_utf16(units);
            }
        },
        Repr::Utf32(units) => {
            if valid_utf32(units) {
                lemma_decode_encode_utf32(units);
            }
        },
    }
}

/// A text whose UTF-8 bytes hold no zero goes to 16-bit units and back
/// unchanged.
pub proof fn theorem_utf16_round_trip(chars: Seq<char>)
    requires
        !encode_utf8(chars).contains(0u8),
    ensures
        as_utf16(Repr::Text(chars)) == Ok::<Seq<u16>, Failure<NulAt<u16>>>(encode_utf16(chars)),
        as_text::<NulAt<u8>>(Repr::Utf16(encode_utf16(chars))) == Ok::<
            Seq<char>,
            Failure<NulAt<u8>>,
        >(chars),
{
    lemma_encode_utf8_nul(chars);
    lemma_encode_utf16_nul(chars);
    lemma_first_nul(encode_utf16(chars));
    lemma_encode_decode_utf16(chars);
}

/// A text whose UTF-8 bytes hold no zero goes to 32-bit units and back
/// unchanged.
pub proof fn theorem_utf32_round_trip(chars: Seq<char>)
    requires
        !encode_utf8(chars).contains(0u8),
    ensures
        as_utf32(Repr::Text(chars)) == Ok::<Seq<u32>, Failure<NulAt<u32>>>(encode_utf32(chars)),
        as_text::<NulAt<u8>>(Repr::Utf32(encode_utf32(chars))) == Ok::<
            Seq<char>,
            Failure<NulAt<u8>>,
        >(chars),
{
    lemma_encode_utf8_nul(chars);
    lemma_encode_utf32_nul(chars);
    lemma_first_nul(encode_utf32(chars));
    lemma_encode_decode_utf32(chars);
}

/// A text whose UTF-8 bytes hold no zero goes to a narrow string and back
/// unchanged.
pub proof fn theorem_narrow_round_trip(chars: Seq<char>)
    requires
        !encode_utf8(chars).contains(0u8),
    ensures
        as_narrow(Repr::Text(chars)) == Ok::<Seq<u8>, Failure<NulAt<u8>>>(encode_utf8(chars)),
        as_text::<NulAt<u8>>(Repr::Narrow(encode_utf8(chars))) == Ok::<
            Seq<char>,
            Failure<NulAt<u8>>,
        >(chars),
{
    lemma_first_nul(encode_utf8(chars));
    encode_utf8_valid_utf8(chars);
    encode_utf8_decode_utf8(chars);
}

/// A text whose UTF-8 bytes hold a zero has no narrow form: the conversion
/// fails and names the first zero, and cuts nothing off.
pub proof fn theorem_embedded_zero_rejected(chars: Seq<char>)
    requires
        encode_utf8(chars).contains(0u8),
    ensures
        as_narrow(Repr::Text(chars)) matches Err(Failure::Nul(found)) && found.units
            == encode_utf8(chars) && is_first_nul(found.units, found.position),
{
    lemma_first_nul(encode_utf8(chars));
}

/// 16-bit units with a high surrogate that no low surrogate follows have no
/// text.
pub proof fn theorem_lone_surrogate_rejected(units: Seq<u16>, at: int)
    requires
        lone_high_surrogate_at(units, at),
    ensures
        as_text::<NulAt<u8>>(Repr::Utf16(units)) == Err::<Seq<char>, Failure<NulAt<u8>>>(
            Failure::InvalidUChar16,
        ),
{
    lemma_lone_high_surrogate_invalid(units, at);
}

/// 16-bit units have a text exactly if none of their surrogates stands
/// outside a pair.
pub proof fn theorem_utf16_text_iff_paired(units: Seq<u16>)
    ensures
        as_text::<NulAt<u8>>(Repr::Utf16(units)) is Ok <==> forall|at: int|
            !lone_high_surrogate_at(units, at) && !lone_low_surrogate_at(units, at),
{
    lemma_valid_utf16_iff_paired(units);
}

/// 32-bit units with a value that is no scalar, such as `0x110000`, have no
/// text.
pub proof fn theorem_non_scalar_rejected(units: Seq<u32>, at: int)
    requires
        0 <= at < units.len(),
        !is_scalar(units[at]),
    ensures
        as_text::<NulAt<u8>>(Repr::Utf32(units)) == Err::<Seq<char>, Failure<NulAt<u8>>>(
            Failure::InvalidUChar32,
        ),
{
    lemma_non_scalar_invalid(units, at);
}

/// What a conversion to a terminated string returns holds no terminator in
/// its payload.
pub proof fn theorem_terminated_payload(source: Repr)
    requires
        source.well_formed(),
    ensures
        as_narrow(source) matches Ok(bytes) ==> first_nul(bytes) is None,
        as_utf16(source) matches Ok(units) ==> first_nul(units) is None,
        as_utf32(source) matches Ok(units) ==> first_nul(units) is None,
{
}

} // verus!
