//! Identifiers of schemas, views and relations. An identifier is a UUID,
//! held as the `u128` whose big-endian bytes are the UUID's bytes
//! (`Uuid::as_u128`).
use vstd::prelude::*;
use vstd::arithmetic::power::pow;

verus! {

/// The lower-case hexadecimal digit for `d` (`0 <= d < 16`).
pub open spec fn hex_digit(d: int) -> char {
    if d < 10 {
        (48 + d) as char
    } else {
        (87 + d) as char
    }
}

/// The `k`-th of the 32 hexadecimal digits of `u`, most significant first.
pub open spec fn uuid_nibble(u: u128, k: int) -> int {
    (u as int / pow(16, (31 - k) as nat)) % 16
}

/// The hyphenated text of a UUID: 32 lower-case hexadecimal digits in groups
/// of 8, 4, 4, 4 and 12, separated by `-` (for instance
/// `a1a2a3a4-b1b2-c1c2-d1d2-d3d4d5d6d7d8`).
pub open spec fn uuid_text(u: u128) -> Seq<char> {
    Seq::new(
        36,
        |i: int|
            if i == 8 || i == 13 || i == 18 || i == 23 {
                '-'
            } else {
                let k = if i < 8 {
                    i
                } else if i < 13 {
                    i - 1
                } else if i < 18 {
                    i - 2
                } else if i < 23 {
                    i - 3
                } else {
                    i - 4
                };
                hex_digit(uuid_nibble(u, k))
            },
    )
}

/// What `uuid::Uuid::parse_str` makes of `text`: the UUID it reads, or the
/// message of the error it refuses the text with.
pub uninterp spec fn parsed_uuid(text: Seq<char>) -> Result<u128, Seq<char>>;

/// Reads a UUID with `uuid::Uuid::parse_str`, which accepts the simple,
/// hyphenated, URN and braced forms of a UUID; a refusal comes with the
/// error's message. The contract names the outcome (`parsed_uuid`) and
/// states nothing more of which texts are accepted.
#[verifier::external_body]
pub(crate) fn parse_uuid_text(text: &str) -> (res: Result<u128, String>)
    ensures
        match res {
            Ok(u) => parsed_uuid(text@) == Ok::<u128, Seq<char>>(u),
            Err(m) => parsed_uuid(text@) == Err::<u128, Seq<char>>(m@),
        },
{
    match uuid::Uuid::parse_str(text) {
        Ok(u) => Ok(u.as_u128()),
        Err(e) => Err(e.to_string()),
    }
}

/// Prints a UUID with `uuid::Uuid`'s `Display`, which the crate documents and
/// implements as the lower-case hyphenated form; `parse_str` reads that form
/// back to the same UUID.
#[verifier::external_body]
pub(crate) fn uuid_to_string(u: u128) -> (res: String)
    ensures
        res@ == uuid_text(u),
        parsed_uuid(res@) is Ok,
        parsed_uuid(res@)->Ok_0 == u,
{
    uuid::Uuid::from_u128(u).to_string()
}

/// `u` is a random (version 4) UUID of the RFC 4122 variant: its version
/// nibble is 4 and its variant bits are `10`.
pub open spec fn is_random_uuid(u: u128) -> bool {
    &&& (u >> 76u128) & 0xfu128 == 4
    &&& (u >> 62u128) & 0x3u128 == 2
}

/// A fresh random UUID (`uuid::Uuid::new_v4`). Its bits come from the
/// system's random source; `new_v4` sets the version to 4 and the variant to
/// RFC 4122, and that is all that is stated of the value.
#[verifier::external_body]
pub(crate) fn new_random_uuid() -> (res: u128)
    ensures
        is_random_uuid(res),
{
    uuid::Uuid::new_v4().as_u128()
}

} // verus!
