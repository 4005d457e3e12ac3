//! UTF-32 as a relation between scalar values and 32-bit units: each unit is
//! one scalar, and a unit that is no scalar makes a sequence ill-formed.
use vstd::prelude::*;
use vstd::utf8::*;

verus! {

/// The units of a text: its scalars, one unit each.
pub open spec fn encode_utf32(chars: Seq<char>) -> Seq<u32> {
    Seq::new(chars.len(), |i: int| chars[i] as u32)
}

/// The sequence is well-formed UTF-32: every unit is a scalar.
pub open spec fn valid_utf32(units: Seq<u32>) -> bool {
    forall|i: int| 0 <= i < units.len() ==> is_scalar(#[trigger] units[i])
}

/// The text that a well-formed sequence stands for.
pub open spec fn decode_utf32(units: Seq<u32>) -> Seq<char>
    recommends
        valid_utf32(units),
{
    Seq::new(units.len(), |i: int| units[i] as char)
}

/// Decoding the units of a text gives the text back.
pub proof fn lemma_encode_decode_utf32(chars: Seq<char>)
    ensures
        valid_utf32(encode_utf32(chars)),
        decode_utf32(encode_utf32(chars)) == chars,
{
    let units = encode_utf32(chars);
    assert forall|i: int| 0 <= i < units.len() implies is_scalar(#[trigger] units[i]) by {
        char_is_scalar(chars[i]);
    }
    assert forall|i: int| 0 <= i < chars.len() implies decode_utf32(units)[i] == chars[i] by {
        char_u32_cast(chars[i], units[i]);
    }
    assert(decode_utf32(units) =~= chars);
}

/// Encoding the text of a well-formed sequence gives the sequence back.
pub proof fn lemma_decode_encode_utf32(units: Seq<u32>)
    requires
        valid_utf32(units),
    ensures
        encode_utf32(decode_utf32(units)) == units,
{
    let chars = decode_utf32(units);
    assert forall|i: int| 0 <= i < units.len() implies encode_utf32(chars)[i] == units[i] by {
        assert(is_scalar(units[i]));
        assert(chars[i] == units[i] as char);
    }
    assert(encode_utf32(chars) =~= units);
}

/// A text's units hold a zero exactly where the text holds the scalar zero.
pub proof fn lemma_encode_utf32_nul(chars: Seq<char>)
    ensures
        encode_utf32(chars).contains(0u32) <==> chars.contains('\0'),
{
    let units = encode_utf32(chars);
    if units.contains(0u32) {
        let i = choose|i: int| 0 <= i < units.len() && units[i] == 0u32;
        char_u32_cast(chars[i], 0u32);
        assert(chars[i] == '\0');
    }
    if chars.contains('\0') {
        let i = choose|i: int| 0 <= i < chars.len() && chars[i] == '\0';
        assert(units[i] == 0u32);
    }
}

/// One unit that is no scalar makes the whole sequence ill-formed, wherever
/// it stands.
pub proof fn lemma_non_scalar_invalid(units: Seq<u32>, at: int)
    requires
        0 <= at < units.len(),
        !is_scalar(units[at]),
    ensures
        !valid_utf32(units),
{
}

} // verus!
