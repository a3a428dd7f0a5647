//! Identifiers: 128-bit UUID values and their canonical text form.
use vstd::prelude::*;

verus! {

/// Lower-case hexadecimal digit for a value in `0..16`.
pub open spec fn hex_digit(n: u128) -> char {
    if n < 10 {
        (48 + n) as char
    } else {
        (87 + n) as char
    }
}

/// The `k`-th hexadecimal digit of `v`, counted from the most significant one (`k` in `0..32`).
pub open spec fn nibble(v: u128, k: int) -> u128 {
    (v >> ((124 - 4 * k) as u128)) & 15u128
}

/// Index of the digit shown at text position `i` of the hyphenated form.
pub open spec fn digit_index(i: int) -> int {
    if i < 8 {
        i
    } else if i < 13 {
        i - 1
    } else if i < 18 {
        i - 2
    } else if i < 23 {
        i - 3
    } else {
        i - 4
    }
}

/// Whether position `i` of the hyphenated form holds a hyphen.
pub open spec fn is_hyphen_position(i: int) -> bool {
    i == 8 || i == 13 || i == 18 || i == 23
}

/// The hyphenated lower-case text of a UUID: 32 hex digits, most significant first,
/// grouped 8-4-4-4-12 by hyphens (36 characters).
pub open spec fn uuid_text(v: u128) -> Seq<char> {
    Seq::new(
        36,
        |i: int|
            if is_hyphen_position(i) {
                '-'
            } else {
                hex_digit(nibble(v, digit_index(i)))
            },
    )
}

/// What `uuid::Uuid::from_str` gives back for a text: the UUID it denotes, or none.
pub uninterp spec fn uuid_parsed(text: Seq<char>) -> Option<u128>;

/// Renders a UUID with `uuid::Uuid`'s `Display` (via `to_string`), which the crate
/// writes as the hyphenated lower-case form.
#[verifier::external_body]
pub(crate) fn uuid_to_string(id: u128) -> (text: String)
    ensures
        text@ == uuid_text(id),
{
    uuid::Uuid::from_u128(id).to_string()
}

/// Parses text with `uuid::Uuid::from_str`. The result is named by `uuid_parsed`; the
/// crate's parser accepts the hyphenated form that `uuid_to_string` writes and gives
/// back the same value.
#[verifier::external_body]
pub(crate) fn uuid_parse(text: &str) -> (id: Option<u128>)
    ensures
        id == uuid_parsed(text@),
        forall|v: u128| #[trigger] uuid_text(v) == text@ ==> id == Some(v),
{
    match <uuid::Uuid as std::str::FromStr>::from_str(text) {
        Ok(u) => Some(u.as_u128()),
        Err(_) => None,
    }
}

/// The mask that selects the version nibble and the two variant bits of a UUID.
pub open spec fn version_variant_mask() -> u128 {
    0xF000_C000_0000_0000_0000u128
}

/// A random version-4 UUID from `uuid::Uuid::new_v4`. Its bits come from the operating
/// system's random source; what holds of every outcome is that the version nibble is 4
/// and the variant bits are `10`.
#[verifier::external_body]
pub(crate) fn uuid_new_v4() -> (id: u128)
    ensures
        id & version_variant_mask() == 0x4000_8000_0000_0000_0000u128,
{
    uuid::Uuid::new_v4().as_u128()
}

proof fn lemma_hex_digit_not_slash(n: u128)
    requires
        n <= 15,
    ensures
        hex_digit(n) != '/',
        hex_digit(n) != '-',
{
    if n < 10 {
        assert(((48 + n) as char) as int == 48 + n);
    } else {
        assert(((87 + n) as char) as int == 87 + n);
    }
}

/// The text of a UUID has 36 characters, hyphens at positions 8, 13, 18 and 23, and
/// no `'/'`.
pub proof fn law_uuid_text_shape(v: u128)
    ensures
        uuid_text(v).len() == 36,
        forall|i: int| 0 <= i < 36 ==> (#[trigger] uuid_text(v)[i] == '-' <==> is_hyphen_position(i)),
        !uuid_text(v).contains('/'),
{
    assert forall|i: int| 0 <= i < 36 implies (#[trigger] uuid_text(v)[i] != '/' && (uuid_text(v)[i]
        == '-' <==> is_hyphen_position(i))) by {
        if !is_hyphen_position(i) {
            let s: u128 = (124 - 4 * digit_index(i)) as u128;
            let x: u128 = v >> s;
            assert(x & 15u128 <= 15u128) by (bit_vector);
            lemma_hex_digit_not_slash(nibble(v, digit_index(i)));
        }
    }
}

} // verus!
