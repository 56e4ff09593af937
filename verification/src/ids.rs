//! Fresh random identifiers, and their text form.
use vstd::prelude::*;

verus! {

/// A fresh random version-4 UUID (`uuid::Uuid::new_v4`) as its 128-bit
/// value. Nothing is stated of the value: it is random.
#[verifier::external_body]
pub(crate) fn fresh_id() -> u128 {
    uuid::Uuid::new_v4().as_u128()
}

/// The lower-case hexadecimal digit for a value below 16.
pub open spec fn hex_digit(n: nat) -> char {
    if n < 10 {
        (('0' as nat) + n) as char
    } else {
        (('a' as nat) + (n - 10)) as char
    }
}

pub open spec fn pow16(k: nat) -> nat
    decreases k,
{
    if k == 0 {
        1
    } else {
        16 * pow16((k - 1) as nat)
    }
}

/// The 32 hexadecimal digits of a 128-bit value, most significant first.
pub open spec fn hex_digits(id: u128) -> Seq<char> {
    Seq::new(32, |k: int| hex_digit(((id as nat) / pow16((31 - k) as nat)) % 16))
}

/// The hyphenated lower-case text of the UUID with a 128-bit value: its
/// 32 hexadecimal digits in groups of 8, 4, 4, 4 and 12 joined by `-`.
pub open spec fn uuid_text(id: u128) -> Seq<char> {
    let h = hex_digits(id);
    h.subrange(0, 8) + "-"@ + h.subrange(8, 12) + "-"@ + h.subrange(12, 16) + "-"@ + h.subrange(16, 20)
        + "-"@ + h.subrange(20, 32)
}

/// The text form of a UUID (`uuid::Uuid::from_u128` then `to_string`,
/// which writes the lower-case hyphenated form): `uuid_text` of its value.
#[verifier::external_body]
pub(crate) fn uuid_string(id: u128) -> (s: String)
    ensures
        s@ == uuid_text(id),
{
    uuid::Uuid::from_u128(id).to_string()
}

/// The value of a hexadecimal digit of either case.
pub open spec fn hex_value(c: char) -> Option<nat> {
    if '0' <= c && c <= '9' {
        Some(((c as nat) - ('0' as nat)) as nat)
    } else if 'a' <= c && c <= 'f' {
        Some(((c as nat) - ('a' as nat) + 10) as nat)
    } else if 'A' <= c && c <= 'F' {
        Some(((c as nat) - ('A' as nat) + 10) as nat)
    } else {
        None
    }
}

/// The number hexadecimal digits spell, most significant first.
pub open spec fn hex_number(s: Seq<char>) -> Option<nat>
    decreases s.len(),
{
    if s.len() == 0 {
        Some(0)
    } else {
        match (hex_number(s.drop_last()), hex_value(s.last())) {
            (Some(n), Some(d)) => Some(n * 16 + d),
            _ => None,
        }
    }
}

/// The 32 digits of the hyphenated form `8-4-4-4-12`.
pub open spec fn hyphenated_digits(s: Seq<char>) -> Option<Seq<char>> {
    if s.len() == 36 && s[8] == '-' && s[13] == '-' && s[18] == '-' && s[23] == '-' {
        Some(s.subrange(0, 8) + s.subrange(9, 13) + s.subrange(14, 18) + s.subrange(19, 23)
            + s.subrange(24, 36))
    } else {
        None
    }
}

/// An ASCII letter in lower case; any other character as it is.
pub open spec fn ascii_lower(c: char) -> char {
    if 'A' <= c && c <= 'Z' {
        ((c as nat) + 32) as char
    } else {
        c
    }
}

/// The 32 digits of a UUID written in one of the spellings `parse_str`
/// takes: 32 digits; the hyphenated form; the hyphenated form in braces;
/// or `urn:uuid:` (in any case) before the hyphenated form.
pub open spec fn uuid_digits(text: Seq<char>) -> Option<Seq<char>> {
    if text.len() == 32 {
        Some(text)
    } else if text.len() == 36 {
        hyphenated_digits(text)
    } else if text.len() == 38 && text[0] == '{' && text[37] == '}' {
        hyphenated_digits(text.subrange(1, 37))
    } else if text.len() == 45 && text.subrange(0, 9).map_values(|c: char| ascii_lower(c))
        == "urn:uuid:"@ {
        hyphenated_digits(text.subrange(9, 45))
    } else {
        None
    }
}

/// The value of a UUID written as text, or `None` when the text is not a
/// UUID: its 32 hexadecimal digits (of either case) read as one number.
pub open spec fn uuid_parsed(text: Seq<char>) -> Option<u128> {
    match uuid_digits(text) {
        Some(d) => match hex_number(d) {
            Some(n) => Some(n as u128),
            None => None,
        },
        None => None,
    }
}

/// Reads a UUID from text (`uuid::Uuid::parse_str`, then `as_u128`): the
/// result is `uuid_parsed` of the text. Every accepted spelling is ASCII, so
/// reading the text by characters is reading it by bytes.
#[verifier::external_body]
fn parse_uuid(text: &str) -> (r: Option<u128>)
    ensures
        r == uuid_parsed(text@),
{
    uuid::Uuid::parse_str(text).ok().map(|u| u.as_u128())
}

/// The voice profile a command names, or `error` when the text is not a
/// UUID.
pub fn profile_id(text: &str, error: crate::error::VerbalixError) -> (r: Result<
    u128,
    crate::error::VerbalixError,
>)
    ensures
        match uuid_parsed(text@) {
            Some(id) => r == Ok::<u128, crate::error::VerbalixError>(id),
            None => r == Err::<u128, crate::error::VerbalixError>(error),
        },
{
    match parse_uuid(text) {
        Some(id) => Ok(id),
        None => Err(error),
    }
}

} // verus!
