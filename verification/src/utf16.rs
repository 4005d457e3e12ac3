//! UTF-16 as a relation between scalar values and 16-bit units.
//!
//! A scalar below `0x10000` is one unit of its own value. A scalar from
//! `0x10000` on is a pair of units, a high surrogate followed by a low
//! surrogate, each carrying ten bits of the scalar less `0x10000`. A
//! surrogate that stands outside such a pair makes a sequence ill-formed.
use vstd::prelude::*;
use crate::unit::lemma_contains_first_or_rest;
use vstd::seq_lib::lemma_seq_concat_contains_all_elements;
use vstd::utf8::*;

verus! {

/// The first unit of a surrogate pair.
pub open spec fn is_high_surrogate(unit: u16) -> bool {
    0xD800 <= unit <= 0xDBFF
}

/// The second unit of a surrogate pair.
pub open spec fn is_low_surrogate(unit: u16) -> bool {
    0xDC00 <= unit <= 0xDFFF
}

/// A unit that stands for no scalar by itself.
pub open spec fn is_surrogate(unit: u16) -> bool {
    0xD800 <= unit <= 0xDFFF
}

/// The scalar that the pair of `high` and `low` stands for.
pub open spec fn pair_scalar(high: u16, low: u16) -> u32
    recommends
        is_high_surrogate(high),
        is_low_surrogate(low),
{
    (0x10000 + (high - 0xD800) * 0x400 + (low - 0xDC00)) as u32
}

/// The high surrogate of a scalar from `0x10000` on.
pub open spec fn high_surrogate_of(scalar: u32) -> u16
    recommends
        0x10000 <= scalar <= 0x10FFFF,
{
    (0xD800 + (scalar - 0x10000) / 0x400) as u16
}

/// The low surrogate of a scalar from `0x10000` on.
pub open spec fn low_surrogate_of(scalar: u32) -> u16
    recommends
        0x10000 <= scalar <= 0x10FFFF,
{
    (0xDC00 + (scalar - 0x10000) % 0x400) as u16
}

/// The units of one scalar.
pub open spec fn encode_scalar_utf16(scalar: u32) -> Seq<u16>
    recommends
        is_scalar(scalar),
{
    if scalar < 0x10000 {
        seq![scalar as u16]
    } else {
        seq![high_surrogate_of(scalar), low_surrogate_of(scalar)]
    }
}

/// The units of a text: those of its scalars, one after the other.
pub open spec fn encode_utf16(chars: Seq<char>) -> Seq<u16>
    decreases chars.len(),
{
    if chars.len() == 0 {
        seq![]
    } else {
        encode_scalar_utf16(chars[0] as u32) + encode_utf16(chars.drop_first())
    }
}

/// The sequence starts with one whole scalar: a unit that is no surrogate,
/// or a high surrogate with its low surrogate behind it.
pub open spec fn valid_first_scalar_utf16(units: Seq<u16>) -> bool {
    &&& units.len() >= 1
    &&& is_surrogate(units[0]) ==> {
        &&& is_high_surrogate(units[0])
        &&& units.len() >= 2
        &&& is_low_surrogate(units[1])
    }
}

/// How many units the first scalar takes.
pub open spec fn length_of_first_scalar_utf16(units: Seq<u16>) -> int
    recommends
        valid_first_scalar_utf16(units),
{
    if is_surrogate(units[0]) {
        2
    } else {
        1
    }
}

/// The first scalar of the sequence.
pub open spec fn decode_first_scalar_utf16(units: Seq<u16>) -> u32
    recommends
        valid_first_scalar_utf16(units),
{
    if is_surrogate(units[0]) {
        pair_scalar(units[0], units[1])
    } else {
        units[0] as u32
    }
}

/// The sequence is well-formed UTF-16: it falls apart into whole scalars.
pub open spec fn valid_utf16(units: Seq<u16>) -> bool
    decreases units.len(),
{
    units.len() != 0 ==> valid_first_scalar_utf16(units) && valid_utf16(
        units.skip(length_of_first_scalar_utf16(units)),
    )
}

/// The text that a well-formed sequence stands for.
pub open spec fn decode_utf16(units: Seq<u16>) -> Seq<char>
    recommends
        valid_utf16(units),
    decreases units.len(),
    when valid_utf16(units)
{
    if units.len() == 0 {
        seq![]
    } else {
        seq![decode_first_scalar_utf16(units) as char] + decode_utf16(
            units.skip(length_of_first_scalar_utf16(units)),
        )
    }
}

/// A high surrogate stands at `at` with no low surrogate behind it.
pub open spec fn lone_high_surrogate_at(units: Seq<u16>, at: int) -> bool {
    &&& 0 <= at < units.len()
    &&& is_high_surrogate(units[at])
    &&& (at + 1 < units.len() ==> !is_low_surrogate(units[at + 1]))
}

/// A low surrogate stands at `at` with no high surrogate before it.
pub open spec fn lone_low_surrogate_at(units: Seq<u16>, at: int) -> bool {
    &&& 0 <= at < units.len()
    &&& is_low_surrogate(units[at])
    &&& (at > 0 ==> !is_high_surrogate(units[at - 1]))
}

/// What the units of one scalar look like: one non-surrogate unit of the
/// scalar's value, or a surrogate pair that gives the scalar back.
pub proof fn lemma_encode_scalar_utf16(scalar: u32)
    requires
        is_scalar(scalar),
    ensures
        ({
            let e = encode_scalar_utf16(scalar);
            &&& scalar < 0x10000 ==> e.len() == 1 && !is_surrogate(e[0]) && e[0] as u32 == scalar
            &&& scalar >= 0x10000 ==> e.len() == 2 && is_high_surrogate(e[0]) && is_low_surrogate(
                e[1],
            ) && pair_scalar(e[0], e[1]) == scalar
            &&& valid_first_scalar_utf16(e)
            &&& length_of_first_scalar_utf16(e) == e.len()
            &&& decode_first_scalar_utf16(e) == scalar
        }),
{
}

/// Encoding a text that starts with `chars[0]` starts with the units of
/// that scalar, and the rest of the units are those of the rest of the text.
proof fn lemma_encode_utf16_first(chars: Seq<char>)
    requires
        chars.len() > 0,
    ensures
        ({
            let units = encode_utf16(chars);
            &&& valid_first_scalar_utf16(units)
            &&& decode_first_scalar_utf16(units) == chars[0] as u32
            &&& units.skip(length_of_first_scalar_utf16(units)) == encode_utf16(chars.drop_first())
        }),
{
    char_is_scalar(chars[0]);
    let head = encode_scalar_utf16(chars[0] as u32);
    let tail = encode_utf16(chars.drop_first());
    lemma_encode_scalar_utf16(chars[0] as u32);
    assert(encode_utf16(chars) == head + tail);
    assert((head + tail).skip(head.len() as int) =~= tail);
}

/// Every text has well-formed units.
pub proof fn lemma_encode_utf16_valid(chars: Seq<char>)
    ensures
        valid_utf16(encode_utf16(chars)),
    decreases chars.len(),
{
    if chars.len() > 0 {
        lemma_encode_utf16_first(chars);
        lemma_encode_utf16_valid(chars.drop_first());
    }
}

/// Decoding the units of a text gives the text back.
pub proof fn lemma_encode_decode_utf16(chars: Seq<char>)
    ensures
        valid_utf16(encode_utf16(chars)),
        decode_utf16(encode_utf16(chars)) == chars,
    decreases chars.len(),
{
    lemma_encode_utf16_valid(chars);
    if chars.len() > 0 {
        lemma_encode_utf16_first(chars);
        lemma_encode_decode_utf16(chars.drop_first());
        let units = encode_utf16(chars);
        char_u32_cast(chars[0], decode_first_scalar_utf16(units));
        assert(seq![chars[0]] + chars.drop_first() =~= chars);
    }
}

/// Encoding the text of a well-formed sequence gives the sequence back.
pub proof fn lemma_decode_encode_utf16(units: Seq<u16>)
    requires
        valid_utf16(units),
    ensures
        encode_utf16(decode_utf16(units)) == units,
    decreases units.len(),
{
    if units.len() > 0 {
        let n = length_of_first_scalar_utf16(units);
        let scalar = decode_first_scalar_utf16(units);
        let rest = units.skip(n);
        let chars = decode_utf16(units);
        lemma_decode_encode_utf16(rest);
        assert(chars.drop_first() =~= decode_utf16(rest));
        assert(chars[0] == scalar as char);
        assert(chars[0] as u32 == scalar);
        assert(encode_scalar_utf16(scalar) =~= units.take(n));
        assert(units.take(n) + units.skip(n) =~= units);
    }
}

/// A text's units hold a zero exactly where the text holds the scalar zero:
/// no other scalar has a zero among its units.
pub proof fn lemma_encode_utf16_nul(chars: Seq<char>)
    ensures
        encode_utf16(chars).contains(0u16) <==> chars.contains('\0'),
    decreases chars.len(),
{
    if chars.len() == 0 {
        assert(!encode_utf16(chars).contains(0u16));
    } else {
        char_is_scalar(chars[0]);
        let head = encode_scalar_utf16(chars[0] as u32);
        let tail = encode_utf16(chars.drop_first());
        lemma_encode_scalar_utf16(chars[0] as u32);
        lemma_encode_utf16_nul(chars.drop_first());
        lemma_seq_concat_contains_all_elements(head, tail, 0u16);
        assert(head.contains(0u16) <==> chars[0] == '\0') by {
            if chars[0] == '\0' {
                assert(head[0] == 0u16);
            }
            if head.contains(0u16) {
                let i = choose|i: int| 0 <= i < head.len() && head[i] == 0u16;
                assert(i == 0 && chars[0] as u32 == 0);
                char_u32_cast(chars[0], 0u32);
            }
        }
        lemma_contains_first_or_rest(chars, '\0');
    }
}

/// A high surrogate with no low surrogate behind it makes the whole sequence
/// ill-formed, wherever it stands.
pub proof fn lemma_lone_high_surrogate_invalid(units: Seq<u16>, at: int)
    requires
        lone_high_surrogate_at(units, at),
    ensures
        !valid_utf16(units),
    decreases units.len(),
{
    if valid_first_scalar_utf16(units) {
        let n = length_of_first_scalar_utf16(units);
        if at >= n {
            let rest = units.skip(n);
            assert(rest[at - n] == units[at]);
            if at + 1 < units.len() {
                assert(rest[at - n + 1] == units[at + 1]);
            }
            lemma_lone_high_surrogate_invalid(rest, at - n);
        }
    }
}

/// A low surrogate with no high surrogate before it makes the whole sequence
/// ill-formed, wherever it stands.
pub proof fn lemma_lone_low_surrogate_invalid(units: Seq<u16>, at: int)
    requires
        lone_low_surrogate_at(units, at),
    ensures
        !valid_utf16(units),
    decreases units.len(),
{
    if valid_first_scalar_utf16(units) {
        let n = length_of_first_scalar_utf16(units);
        if at >= n {
            let rest = units.skip(n);
            assert(rest[at - n] == units[at]);
            if at - n > 0 {
                assert(rest[at - n - 1] == units[at - 1]);
            }
            lemma_lone_low_surrogate_invalid(rest, at - n);
        }
    }
}

/// An ill-formed sequence holds a surrogate outside a pair: a high
/// surrogate that no low surrogate follows, or a low surrogate that no high
/// surrogate precedes.
pub proof fn lemma_invalid_utf16_has_lone_surrogate(units: Seq<u16>) -> (at: int)
    requires
        !valid_utf16(units),
    ensures
        lone_high_surrogate_at(units, at) || lone_low_surrogate_at(units, at),
    decreases units.len(),
{
    if !valid_first_scalar_utf16(units) {
        0
    } else {
        let n = length_of_first_scalar_utf16(units);
        let rest = units.skip(n);
        let i = lemma_invalid_utf16_has_lone_surrogate(rest);
        assert(rest[i] == units[i + n]);
        if i + 1 < rest.len() {
            assert(rest[i + 1] == units[i + n + 1]);
        }
        if i > 0 {
            assert(rest[i - 1] == units[i + n - 1]);
        }
        i + n
    }
}

/// A sequence is well-formed exactly if none of its surrogates stands
/// outside a pair.
pub proof fn lemma_valid_utf16_iff_paired(units: Seq<u16>)
    ensures
        valid_utf16(units) <==> forall|at: int|
            !lone_high_surrogate_at(units, at) && !lone_low_surrogate_at(units, at),
{
    if !valid_utf16(units) {
        let at = lemma_invalid_utf16_has_lone_surrogate(units);
    } else {
        assert forall|at: int|
            !lone_high_surrogate_at(units, at) && !lone_low_surrogate_at(units, at) by {
            if lone_high_surrogate_at(units, at) {
                lemma_lone_high_surrogate_invalid(units, at);
            }
            if lone_low_surrogate_at(units, at) {
                lemma_lone_low_surrogate_invalid(units, at);
            }
        }
    }
}

} // verus!
