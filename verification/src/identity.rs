//! Group identities: the token that binds together the records of one file in
//! one run.

use vstd::prelude::*;

verus! {

/// The bits of a UUID that hold its version and its variant.
pub const VERSION_AND_VARIANT_BITS: u128 = 0x0000_0000_0000_f000_c000_0000_0000_0000;

/// Version 4 (random) in the version bits, and the variant of RFC 9562 in the
/// variant bits.
pub const RANDOM_VERSION_AND_VARIANT: u128 = 0x0000_0000_0000_4000_8000_0000_0000_0000;

/// A group identity: a UUID, held as its 128-bit value.
#[derive(Clone, Copy, Debug, PartialEq, Eq, Hash, Structural)]
pub struct GroupId {
    /// The UUID's sixteen bytes as one number, the first byte highest.
    pub value: u128,
}

/// The lower-case hexadecimal digit for a value below sixteen.
pub open spec fn hex_digit(value: int) -> char {
    seq!['0', '1', '2', '3', '4', '5', '6', '7', '8', '9', 'a', 'b', 'c', 'd', 'e', 'f'][value]
}

/// The hexadecimal digit of `value` at place `place`, counted from the highest
/// (place 0) to the lowest (place 31).
pub open spec fn nibble(value: u128, place: int) -> int {
    (value as int / pow16(31 - place)) % 16
}

/// Sixteen to the power `exponent`.
pub open spec fn pow16(exponent: int) -> int
    decreases exponent,
{
    if exponent <= 0 {
        1
    } else {
        16 * pow16(exponent - 1)
    }
}

/// Whether a hyphen stands at position `at` of the canonical text.
pub open spec fn is_hyphen_position(at: int) -> bool {
    at == 8 || at == 13 || at == 18 || at == 23
}

/// The place of the digit that stands at position `at` of the canonical text.
pub open spec fn digit_place(at: int) -> int {
    if at < 8 {
        at
    } else if at < 13 {
        at - 1
    } else if at < 18 {
        at - 2
    } else if at < 23 {
        at - 3
    } else {
        at - 4
    }
}

/// The canonical text of a UUID: its 32 hexadecimal digits in lower case, in
/// groups of 8, 4, 4, 4 and 12 with a hyphen between two groups.
pub open spec fn canonical_text(value: u128) -> Seq<char> {
    Seq::new(
        36,
        |at: int|
            if is_hyphen_position(at) {
                '-'
            } else {
                hex_digit(nibble(value, digit_place(at)))
            },
    )
}

/// A character of which canonical texts are made: a lower-case hexadecimal
/// digit or a hyphen.
pub open spec fn is_canonical_char(c: char) -> bool {
    ('0' <= c && c <= '9') || ('a' <= c && c <= 'f') || c == '-'
}

/// The digit for a value below sixteen is a lower-case hexadecimal digit, and
/// two values below sixteen with the same digit are the same.
pub proof fn hex_digit_facts(value: int, other: int)
    requires
        0 <= value < 16,
        0 <= other < 16,
    ensures
        is_canonical_char(hex_digit(value)),
        hex_digit(value) != '-',
        hex_digit(value) == hex_digit(other) ==> value == other,
{
}

/// A canonical text has 36 characters, each a hexadecimal digit or a hyphen.
pub proof fn canonical_text_chars(value: u128)
    ensures
        canonical_text(value).len() == 36,
        forall|at: int| 0 <= at < 36 ==> is_canonical_char(#[trigger] canonical_text(value)[at]),
{
    assert forall|at: int| 0 <= at < 36 implies is_canonical_char(
        #[trigger] canonical_text(value)[at],
    ) by {
        if !is_hyphen_position(at) {
            hex_digit_facts(nibble(value, digit_place(at)), 0);
        }
    }
}

/// The position in the canonical text of the digit at place `place`.
pub open spec fn digit_position(place: int) -> int {
    if place < 8 {
        place
    } else if place < 12 {
        place + 1
    } else if place < 16 {
        place + 2
    } else if place < 20 {
        place + 3
    } else {
        place + 4
    }
}

/// The number that the first `digits` hexadecimal digits of `value` spell.
spec fn leading(value: int, digits: int) -> int {
    value / pow16(32 - digits)
}

/// A power of sixteen is positive.
proof fn pow16_positive(exponent: int)
    ensures
        pow16(exponent) > 0,
    decreases exponent,
{
    if exponent > 0 {
        pow16_positive(exponent - 1);
    }
}

/// One more leading digit: sixteen times what stood before, and the digit.
proof fn leading_step(value: u128, place: int)
    requires
        0 <= place < 32,
    ensures
        leading(value as int, place + 1) == 16 * leading(value as int, place) + nibble(
            value,
            place,
        ),
{
    let unit = pow16(31 - place);
    pow16_positive(31 - place);
    let upper = value as int / unit;
    assert(pow16(32 - place) == 16 * unit);
    vstd::arithmetic::div_mod::lemma_div_denominator(value as int, unit, 16);
    assert(unit * 16 == 16 * unit) by (nonlinear_arith);
    assert(upper / 16 == leading(value as int, place));
    vstd::arithmetic::div_mod::lemma_fundamental_div_mod(upper, 16);
}

/// Two values with the same digits up to a place have the same leading number
/// up to that place.
proof fn leading_agree(a: u128, b: u128, digits: int)
    requires
        0 <= digits <= 32,
        forall|place: int| 0 <= place < 32 ==> nibble(a, place) == nibble(b, place),
    ensures
        leading(a as int, digits) == leading(b as int, digits),
    decreases digits,
{
    if digits == 0 {
        assert(pow16(32) == 0x1_0000_0000_0000_0000_0000_0000_0000_0000) by {
            reveal_with_fuel(pow16, 33);
        }
        assert(leading(a as int, 0) == 0);
        assert(leading(b as int, 0) == 0);
    } else {
        leading_agree(a, b, digits - 1);
        leading_step(a, digits - 1);
        leading_step(b, digits - 1);
    }
}

/// The canonical text tells the identity: two values with the same canonical
/// text are the same value.
pub proof fn canonical_text_injective(a: u128, b: u128)
    requires
        canonical_text(a) == canonical_text(b),
    ensures
        a == b,
{
    assert forall|place: int| 0 <= place < 32 implies nibble(a, place) == nibble(b, place) by {
        let at = digit_position(place);
        assert(!is_hyphen_position(at) && digit_place(at) == place);
        assert(canonical_text(a)[at] == hex_digit(nibble(a, place)));
        assert(canonical_text(b)[at] == hex_digit(nibble(b, place)));
        hex_digit_facts(nibble(a, place), nibble(b, place));
    }
    leading_agree(a, b, 32);
    assert(pow16(0) == 1);
}

impl GroupId {
    /// This identity has the version and variant bits of a random UUID.
    pub open spec fn is_random(self) -> bool {
        self.value & VERSION_AND_VARIANT_BITS == RANDOM_VERSION_AND_VARIANT
    }

    /// The canonical text of this identity.
    pub open spec fn text(self) -> Seq<char> {
        canonical_text(self.value)
    }

    /// The identity with the given 128-bit value.
    pub fn from_value(value: u128) -> (id: GroupId)
        ensures
            id.value == value,
    {
        GroupId { value }
    }

    /// The canonical text of this identity, such as
    /// `67e55044-10b1-426f-9247-bb680e5fe0c8`.
    pub fn to_text(&self) -> (text: String)
        ensures
            text@ == self.text(),
    {
        uuid_text(self.value)
    }
}

/// There are identities with the version and variant bits of a random UUID:
/// the one with no other bit set is one.
pub proof fn random_identity_exists()
    ensures
        (GroupId { value: RANDOM_VERSION_AND_VARIANT }).is_random(),
{
    assert(0x0000_0000_0000_4000_8000_0000_0000_0000u128
        & 0x0000_0000_0000_f000_c000_0000_0000_0000u128
        == 0x0000_0000_0000_4000_8000_0000_0000_0000u128) by (bit_vector);
}

/// A fresh group identity: a random UUID. Every call draws anew; nothing is
/// derived from any file.
pub fn generate_group_id() -> (id: GroupId)
    ensures
        id.is_random(),
{
    GroupId { value: random_uuid() }
}

/// Calls `uuid::Uuid::new_v4` and hands back the UUID's value.
///
/// The 122 random bits come from the operating system; the contract states only
/// what `new_v4` fixes whatever was drawn: version 4 and the RFC variant.
/// `new_v4` stops the program when the operating system has no random bytes
/// to give.
#[verifier::external_body]
fn random_uuid() -> (value: u128)
    ensures
        value & VERSION_AND_VARIANT_BITS == RANDOM_VERSION_AND_VARIANT,
{
    uuid::Uuid::new_v4().as_u128()
}

/// Calls `to_string` of `uuid::Uuid` on the UUID with the given value.
///
/// Its `Display` is the lower-case hyphenated form, which the contract spells
/// out as `canonical_text`.
#[verifier::external_body]
fn uuid_text(value: u128) -> (text: String)
    ensures
        text@ == canonical_text(value),
{
    uuid::Uuid::from_u128(value).to_string()
}

} // verus!
