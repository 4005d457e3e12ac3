//! What the conversions need to know of UTF-8 beyond its definition, which
//! is `vstd`'s: where the bytes of a text hold a zero.
use crate::unit::lemma_contains_first_or_rest;
use vstd::prelude::*;
use vstd::seq_lib::lemma_seq_concat_contains_all_elements;
use vstd::utf8::*;

verus! {

/// Only the scalar zero has a zero among its bytes: every leading byte of a
/// longer form and every continuation byte has its top bit set.
proof fn lemma_scalar_bytes_nonzero(scalar: u32)
    by (bit_vector)
    ensures
        has_width_1_encoding(scalar) ==> (leading_byte_width_1(scalar) == 0 <==> scalar == 0),
        leading_byte_width_2(scalar) != 0,
        leading_byte_width_3(scalar) != 0,
        leading_byte_width_4(scalar) != 0,
        last_continuation_byte(scalar) != 0,
        second_last_continuation_byte(scalar) != 0,
        third_last_continuation_byte(scalar) != 0,
{
}

/// The bytes of one scalar hold a zero exactly if the scalar is zero.
pub proof fn lemma_encode_scalar_nul(scalar: u32)
    requires
        is_scalar(scalar),
    ensures
        encode_scalar(scalar).contains(0u8) <==> scalar == 0,
{
    let bytes = encode_scalar(scalar);
    lemma_scalar_bytes_nonzero(scalar);
    if scalar == 0 {
        assert(bytes[0] == 0u8);
    }
    if bytes.contains(0u8) {
        let i = choose|i: int| 0 <= i < bytes.len() && bytes[i] == 0u8;
        assert(i == 0 && has_width_1_encoding(scalar));
    }
}

/// A text's bytes hold a zero exactly where the text holds the scalar zero.
pub proof fn lemma_encode_utf8_nul(chars: Seq<char>)
    ensures
        encode_utf8(chars).contains(0u8) <==> chars.contains('\0'),
    decreases chars.len(),
{
    if chars.len() == 0 {
        assert(!encode_utf8(chars).contains(0u8));
    } else {
        char_is_scalar(chars[0]);
        let head = encode_scalar(chars[0] as u32);
        let tail = encode_utf8(chars.drop_first());
        lemma_encode_scalar_nul(chars[0] as u32);
        lemma_encode_utf8_nul(chars.drop_first());
        lemma_seq_concat_contains_all_elements(head, tail, 0u8);
        assert(chars[0] as u32 == 0 <==> chars[0] == '\0') by {
            if chars[0] as u32 == 0 {
                char_u32_cast(chars[0], 0u32);
            }
        }
        lemma_contains_first_or_rest(chars, '\0');
    }
}

} // verus!
