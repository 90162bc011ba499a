use vstd::prelude::*;

verus! {

/// The lowercase hexadecimal digit for a value below 16.
pub open spec fn hex_digit(n: int) -> char {
    seq!['0', '1', '2', '3', '4', '5', '6', '7', '8', '9', 'a', 'b', 'c', 'd', 'e', 'f'][n]
}

/// The `k`-th four-bit group of `v`, counted from the most significant end (`0 <= k < 32`).
pub open spec fn nibble(v: u128, k: int) -> int {
    ((v >> ((124 - 4 * k) as u128)) & 0xf) as int
}

/// Positions of the hyphens in the canonical text of an id.
pub open spec fn is_hyphen_pos(i: int) -> bool {
    i == 8 || i == 13 || i == 18 || i == 23
}

/// The number of hex digits that precede position `i` of the canonical text.
pub open spec fn digits_before(i: int) -> int {
    if i < 8 {
        i
    } else if i < 13 {
        i - 1
    } else if i < 18 {
        i - 2
    } else if i < 23 {
        i - 3
    } else {
        i - 4
    }
}

/// The canonical text of an id: 32 lowercase hex digits, most significant first,
/// in groups of 8-4-4-4-12 joined by hyphens.
pub open spec fn canonical_text(v: u128) -> Seq<char> {
    Seq::new(
        36,
        |i: int|
            if is_hyphen_pos(i) {
                '-'
            } else {
                hex_digit(nibble(v, digits_before(i)))
            },
    )
}

/// Relies on `uuid::Uuid::from_u128` (big-endian, so the most significant group comes first)
/// and its `Display`, which writes the lowercase hyphenated form.
#[verifier::external_body]
pub(crate) fn id_text(id: u128) -> (r: String)
    ensures
        r@ == canonical_text(id),
{
    uuid::Uuid::from_u128(id).to_string()
}

/// The value that the id library reads from a text, if it is a valid id.
pub uninterp spec fn uuid_value(s: Seq<char>) -> Option<u128>;

/// Relies on `uuid::Uuid::parse_str` and `Uuid::as_u128`: the result depends on the text
/// alone, the hyphenated text of a value parses back to that value, and only inputs of
/// 32, 36, 38 or 45 characters (simple, hyphenated, braced, URN) can parse at all.
#[verifier::external_body]
pub(crate) fn parse_id(s: &str) -> (r: Option<u128>)
    ensures
        r == uuid_value(s@),
        forall|v: u128| #[trigger] canonical_text(v) == s@ ==> r == Some(v),
        r is Some ==> (s@.len() == 32 || s@.len() == 36 || s@.len() == 38 || s@.len() == 45),
{
    match uuid::Uuid::parse_str(s) {
        Ok(u) => Some(u.as_u128()),
        Err(_) => None,
    }
}

/// The version field of a random (version 4) id.
pub open spec fn is_random_id(v: u128) -> bool {
    (v >> 76u128) & 0xf == 4 && (v >> 62u128) & 0x3 == 2
}

/// Relies on `uuid::Uuid::new_v4`: a random value whose version bits say 4 and whose
/// variant bits say RFC 4122; nothing else is known of it.
#[verifier::external_body]
pub(crate) fn fresh_id() -> (r: u128)
    ensures
        is_random_id(r),
{
    uuid::Uuid::new_v4().as_u128()
}

} // verus!
