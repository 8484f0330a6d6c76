use vstd::prelude::*;
use uuid::Uuid;
use crate::text::hex_char;

verus! {

/// The id a UUID text names, as its 128-bit value, if the text is a UUID.
pub uninterp spec fn uuid_parsed(s: Seq<char>) -> Option<u128>;

/// `16^n`.
pub open spec fn pow16(n: nat) -> int
    decreases n,
{
    if n == 0 {
        1
    } else {
        16 * pow16((n - 1) as nat)
    }
}

/// The `k`-th of the 32 hexadecimal digits of `id`, most significant first.
pub open spec fn nibble(id: u128, k: int) -> int {
    (id as int / pow16((31 - k) as nat)) % 16
}

/// The hyphenated lower-case text of the UUID with value `id`: its 32 hex
/// digits, most significant first, with a hyphen after the 8th, 12th, 16th
/// and 20th.
pub open spec fn uuid_text_of(id: u128) -> Seq<char> {
    Seq::new(
        36,
        |i: int|
            if i == 8 || i == 13 || i == 18 || i == 23 {
                '-'
            } else {
                hex_char(
                    nibble(
                        id,
                        i - if i > 23 {
                            4int
                        } else if i > 18 {
                            3int
                        } else if i > 13 {
                            2int
                        } else if i > 8 {
                            1int
                        } else {
                            0int
                        },
                    ),
                )
            },
    )
}

/// Relies on `uuid::Uuid::new_v4`: a random version-4 UUID, as its 128-bit value.
#[verifier::external_body]
pub(crate) fn new_id() -> (r: u128) {
    Uuid::new_v4().as_u128()
}

/// Relies on `uuid::Uuid::parse_str`, the result depending on the text alone.
#[verifier::external_body]
pub(crate) fn parse_uuid(s: &str) -> (r: Option<u128>)
    ensures
        r == uuid_parsed(s@),
{
    match Uuid::parse_str(s) {
        Ok(u) => Some(u.as_u128()),
        Err(_) => None,
    }
}

/// Relies on `uuid::Uuid::from_u128`, which takes the value's bytes
/// most significant first, and on `Uuid`'s `Display`: the hyphenated
/// lower-case form.
#[verifier::external_body]
pub(crate) fn uuid_text(id: u128) -> (r: String)
    ensures
        r@ == uuid_text_of(id),
{
    Uuid::from_u128(id).to_string()
}

} // verus!
