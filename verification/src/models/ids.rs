//! Record identifiers: random RFC 4122 version-4 UUIDs, held as `u128`
//! (big-endian, as `Uuid::as_u128` gives them) and stored as their
//! hyphenated lower-case text.
use vstd::prelude::*;
use uuid::Uuid;

verus! {

/// The lower-case hexadecimal digit for a value in `0..16`.
pub open spec fn hex_digit(n: int) -> char {
    if n < 10 {
        (('0' as int) + n) as char
    } else {
        (('a' as int) + n - 10) as char
    }
}

/// The `k`-th hexadecimal digit of `id`, counted from the most significant.
pub open spec fn nibble(id: u128, k: int) -> int {
    ((id >> ((124 - 4 * k) as u128)) & 15u128) as int
}

/// Positions of the hyphens in the 8-4-4-4-12 layout.
pub open spec fn is_hyphen_position(i: int) -> bool {
    i == 8 || i == 13 || i == 18 || i == 23
}

/// Which hexadecimal digit of the id stands at text position `i`.
pub open spec fn digit_at(i: int) -> int {
    if i < 8 {
        i
    } else if i < 13 {
        i - 1
    } else if i < 18 {
        i - 2
    } else if i < 23 {
        i - 3
    } else {
        i - 4
    }
}

/// The hyphenated lower-case text of an identifier,
/// e.g. `67e55044-10b1-426f-9247-bb680e5fe0c8`.
pub open spec fn uuid_text(id: u128) -> Seq<char> {
    Seq::new(
        36,
        |i: int|
            if is_hyphen_position(i) {
                '-'
            } else {
                hex_digit(nibble(id, digit_at(i)))
            },
    )
}

/// An identifier carries the version-4 and RFC 4122 variant bits.
pub open spec fn is_random_uuid(id: u128) -> bool {
    &&& (id >> 76u128) & 15u128 == 4
    &&& (id >> 62u128) & 3u128 == 2
}

/// What `Uuid::try_parse` makes of a text, as a `u128`.
pub uninterp spec fn uuid_parsed(text: Seq<char>) -> Option<u128>;

/// Draws a fresh identifier with `Uuid::new_v4` and returns it as a `u128`.
/// The value is random; the contract claims only the version and variant
/// bits, which `new_v4` sets by masking the random value.
#[verifier::external_body]
pub(crate) fn new_random_id() -> (id: u128)
    ensures
        is_random_uuid(id),
{
    Uuid::new_v4().as_u128()
}

/// Formats an identifier with `Uuid::from_u128(id).to_string()`. The
/// contract claims the hyphenated lower-case layout that `Display` for
/// `Uuid` writes, and that `Uuid::try_parse` reads that text back as `id`.
#[verifier::external_body]
pub(crate) fn id_to_text(id: u128) -> (text: String)
    ensures
        text@ == uuid_text(id),
        uuid_parsed(text@) == Some(id),
{
    Uuid::from_u128(id).to_string()
}

/// Parses an identifier with `Uuid::try_parse`, giving `None` where it
/// fails. The contract names the result and claims that the hyphenated
/// text of any identifier is read back as that identifier; what else the
/// parser accepts (simple, braced and URN forms) is left unsaid.
#[verifier::external_body]
pub(crate) fn parse_id(text: &str) -> (id: Option<u128>)
    ensures
        id == uuid_parsed(text@),
        forall|x: u128| text@ == uuid_text(x) ==> id == Some(x),
{
    match Uuid::try_parse(text) {
        Ok(uuid) => Some(uuid.as_u128()),
        Err(_) => None,
    }
}

} // verus!
