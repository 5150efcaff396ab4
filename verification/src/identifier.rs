//! Conversation identifiers as text.
//!
//! A conversation is known by a 128-bit identifier. Its workspace directory
//! carries the usual text form of that identifier: 32 lower-case hexadecimal
//! digits, most significant first, in groups of 8, 4, 4, 4 and 12 with a
//! hyphen between the groups.

use crate::path::{has_drive_prefix, has_parent_marker, has_separator, is_valid_filename};
use vstd::prelude::*;

verus! {

/// The hexadecimal digits, in the order of their values.
pub open spec fn lower_hex() -> Seq<char> {
    "0123456789abcdef"@
}

/// The `position`-th of the 32 hexadecimal digits of `value`, counted from
/// the most significant, as a number.
pub open spec fn nibble_of(value: u128, position: int) -> u128 {
    (value >> ((4 * (31 - position)) as u128)) & 0xf
}

/// The number of hyphens that stand before the place `i` of the text form.
pub open spec fn hyphens_before(i: int) -> int {
    if i > 23 {
        4
    } else if i > 18 {
        3
    } else if i > 13 {
        2
    } else if i > 8 {
        1
    } else {
        0
    }
}

/// A hyphen stands at the place `i` of the text form.
pub open spec fn is_hyphen_place(i: int) -> bool {
    i == 8 || i == 13 || i == 18 || i == 23
}

/// The text form of the identifier `value`.
pub open spec fn uuid_text(value: u128) -> Seq<char> {
    Seq::new(
        36,
        |i: int|
            if is_hyphen_place(i) {
                '-'
            } else {
                lower_hex()[nibble_of(value, i - hyphens_before(i)) as int]
            },
    )
}

/// Calls `uuid::Uuid::from_u128(value).to_string()`. Trusted: the result is
/// the hyphenated lower-case form of the identifier whose big-endian value is
/// `value`, as `uuid_text` spells it out.
#[verifier::external_body]
pub(crate) fn hyphenated(value: u128) -> (text: String)
    ensures
        text@ == uuid_text(value),
{
    uuid::Uuid::from_u128(value).to_string()
}

/// Every character of a text form is a hexadecimal digit or a hyphen.
pub proof fn lemma_uuid_text_characters(value: u128, i: int)
    requires
        0 <= i < 36,
    ensures
        uuid_text(value).len() == 36,
        is_hyphen_place(i) ==> uuid_text(value)[i] == '-',
        !is_hyphen_place(i) ==> exists|digit: int|
            0 <= digit < 16 && uuid_text(value)[i] == #[trigger] lower_hex()[digit],
        uuid_text(value)[i] != '/',
        uuid_text(value)[i] != '\\',
        uuid_text(value)[i] != '.',
        uuid_text(value)[i] != ':',
{
    reveal_strlit("0123456789abcdef");
    if !is_hyphen_place(i) {
        let position = i - hyphens_before(i);
        let shift = (4 * (31 - position)) as u128;
        let digit = nibble_of(value, position);
        assert((value >> shift) & 0xf < 16) by (bit_vector);
        assert(uuid_text(value)[i] == lower_hex()[digit as int]);
    }
}

/// The text form of an identifier is a valid file name.
pub proof fn lemma_uuid_text_is_a_valid_name(value: u128)
    ensures
        is_valid_filename(uuid_text(value)),
{
    let text = uuid_text(value);
    assert forall|i: int| 0 <= i < text.len() implies text[i] != '/' && text[i] != '\\' && text[i]
        != '.' && text[i] != ':' by {
        lemma_uuid_text_characters(value, i);
    }
    assert(!has_separator(text));
    assert(!has_parent_marker(text));
    assert(!has_drive_prefix(text));
}

/// The place in the text form of the `position`-th hexadecimal digit.
pub open spec fn place_of(position: int) -> int {
    if position < 8 {
        position
    } else if position < 12 {
        position + 1
    } else if position < 16 {
        position + 2
    } else if position < 20 {
        position + 3
    } else {
        position + 4
    }
}

/// Different digit values are written with different digits.
proof fn lemma_lower_hex_is_injective(first: int, second: int)
    requires
        0 <= first < 16,
        0 <= second < 16,
        lower_hex()[first] == lower_hex()[second],
    ensures
        first == second,
{
    reveal_strlit("0123456789abcdef");
}

/// Two identifiers with the same text form are the same identifier: no two
/// conversations share a workspace directory.
pub proof fn lemma_uuid_text_is_injective(first: u128, second: u128)
    requires
        uuid_text(first) == uuid_text(second),
    ensures
        first == second,
{
    assert forall|position: int| 0 <= position < 32 implies #[trigger] nibble_of(first, position)
        == nibble_of(second, position) by {
        let i = place_of(position);
        let shift = (4 * (31 - position)) as u128;
        assert(uuid_text(first)[i] == uuid_text(second)[i]);
        assert(i - hyphens_before(i) == position);
        assert((first >> shift) & 0xf < 16) by (bit_vector);
        assert((second >> shift) & 0xf < 16) by (bit_vector);
        assert(!is_hyphen_place(i));
        assert(uuid_text(first)[i] == lower_hex()[nibble_of(first, position) as int]);
        assert(uuid_text(second)[i] == lower_hex()[nibble_of(second, position) as int]);
        lemma_lower_hex_is_injective(
            nibble_of(first, position) as int,
            nibble_of(second, position) as int,
        );
    }
    assert(nibble_of(first, 0) == nibble_of(second, 0));
    assert(nibble_of(first, 1) == nibble_of(second, 1));
    assert(nibble_of(first, 2) == nibble_of(second, 2));
    assert(nibble_of(first, 3) == nibble_of(second, 3));
    assert(nibble_of(first, 4) == nibble_of(second, 4));
    assert(nibble_of(first, 5) == nibble_of(second, 5));
    assert(nibble_of(first, 6) == nibble_of(second, 6));
    assert(nibble_of(first, 7) == nibble_of(second, 7));
    assert(nibble_of(first, 8) == nibble_of(second, 8));
    assert(nibble_of(first, 9) == nibble_of(second, 9));
    assert(nibble_of(first, 10) == nibble_of(second, 10));
    assert(nibble_of(first, 11) == nibble_of(second, 11));
    assert(nibble_of(first, 12) == nibble_of(second, 12));
    assert(nibble_of(first, 13) == nibble_of(second, 13));
    assert(nibble_of(first, 14) == nibble_of(second, 14));
    assert(nibble_of(first, 15) == nibble_of(second, 15));
    assert(nibble_of(first, 16) == nibble_of(second, 16));
    assert(nibble_of(first, 17) == nibble_of(second, 17));
    assert(nibble_of(first, 18) == nibble_of(second, 18));
    assert(nibble_of(first, 19) == nibble_of(second, 19));
    assert(nibble_of(first, 20) == nibble_of(second, 20));
    assert(nibble_of(first, 21) == nibble_of(second, 21));
    assert(nibble_of(first, 22) == nibble_of(second, 22));
    assert(nibble_of(first, 23) == nibble_of(second, 23));
    assert(nibble_of(first, 24) == nibble_of(second, 24));
    assert(nibble_of(first, 25) == nibble_of(second, 25));
    assert(nibble_of(first, 26) == nibble_of(second, 26));
    assert(nibble_of(first, 27) == nibble_of(second, 27));
    assert(nibble_of(first, 28) == nibble_of(second, 28));
    assert(nibble_of(first, 29) == nibble_of(second, 29));
    assert(nibble_of(first, 30) == nibble_of(second, 30));
    assert(nibble_of(first, 31) == nibble_of(second, 31));
    assert(first == second) by (bit_vector)
        requires
            (first >> 124) & 0xf == (second >> 124) & 0xf,
            (first >> 120) & 0xf == (second >> 120) & 0xf,
            (first >> 116) & 0xf == (second >> 116) & 0xf,
            (first >> 112) & 0xf == (second >> 112) & 0xf,
            (first >> 108) & 0xf == (second >> 108) & 0xf,
            (first >> 104) & 0xf == (second >> 104) & 0xf,
            (first >> 100) & 0xf == (second >> 100) & 0xf,
            (first >> 96) & 0xf == (second >> 96) & 0xf,
            (first >> 92) & 0xf == (second >> 92) & 0xf,
            (first >> 88) & 0xf == (second >> 88) & 0xf,
            (first >> 84) & 0xf == (second >> 84) & 0xf,
            (first >> 80) & 0xf == (second >> 80) & 0xf,
            (first >> 76) & 0xf == (second >> 76) & 0xf,
            (first >> 72) & 0xf == (second >> 72) & 0xf,
            (first >> 68) & 0xf == (second >> 68) & 0xf,
            (first >> 64) & 0xf == (second >> 64) & 0xf,
            (first >> 60) & 0xf == (second >> 60) & 0xf,
            (first >> 56) & 0xf == (second >> 56) & 0xf,
            (first >> 52) & 0xf == (second >> 52) & 0xf,
            (first >> 48) & 0xf == (second >> 48) & 0xf,
            (first >> 44) & 0xf == (second >> 44) & 0xf,
            (first >> 40) & 0xf == (second >> 40) & 0xf,
            (first >> 36) & 0xf == (second >> 36) & 0xf,
            (first >> 32) & 0xf == (second >> 32) & 0xf,
            (first >> 28) & 0xf == (second >> 28) & 0xf,
            (first >> 24) & 0xf == (second >> 24) & 0xf,
            (first >> 20) & 0xf == (second >> 20) & 0xf,
            (first >> 16) & 0xf == (second >> 16) & 0xf,
            (first >> 12) & 0xf == (second >> 12) & 0xf,
            (first >> 8) & 0xf == (second >> 8) & 0xf,
            (first >> 4) & 0xf == (second >> 4) & 0xf,
            (first >> 0) & 0xf == (second >> 0) & 0xf,
    ;
}

} // verus!
