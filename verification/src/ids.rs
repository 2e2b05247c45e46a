//! Identifiers: UUIDs held as 128-bit numbers, and the header that carries a guest's cart.
use crate::headers::{header_bytes, header_value, header_value_text, visible_ascii, visible_bytes};
use crate::text::ascii_lower;
use axum::http::HeaderValue;
use vstd::prelude::*;
use vstd::utf8::{decode_utf8, encode_utf8, encode_utf8_decode_utf8, is_ascii_chars, is_ascii_chars_encode_utf8};

verus! {

/// A UUID as the number that its sixteen bytes spell, the first byte being the highest.
pub type Id = u128;

/// The number that a hexadecimal digit stands for.
pub open spec fn hex_digit_value(c: char) -> Option<int> {
    if '0' <= c <= '9' {
        Some(c as int - '0' as int)
    } else if 'a' <= c <= 'f' {
        Some(c as int - 'a' as int + 10)
    } else if 'A' <= c <= 'F' {
        Some(c as int - 'A' as int + 10)
    } else {
        None
    }
}

/// The number that a row of hexadecimal digits spells, or nothing where another character occurs.
pub open spec fn hex_value(digits: Seq<char>) -> Option<int>
    decreases digits.len(),
{
    if digits.len() == 0 {
        Some(0)
    } else {
        match (hex_value(digits.drop_last()), hex_digit_value(digits.last())) {
            (Some(high), Some(low)) => Some(high * 16 + low),
            _ => None,
        }
    }
}

/// The digits of a text in the layout 8-4-4-4-12, or nothing for another layout.
pub open spec fn without_hyphens(text: Seq<char>) -> Option<Seq<char>> {
    if text.len() == 36 && text[8] == '-' && text[13] == '-' && text[18] == '-' && text[23]
        == '-' {
        Some(
            text.subrange(0, 8) + text.subrange(9, 13) + text.subrange(14, 18) + text.subrange(
                19,
                23,
            ) + text.subrange(24, 36),
        )
    } else {
        None
    }
}

/// The number that a text in the layout 8-4-4-4-12 spells.
pub open spec fn hyphenated_value(text: Seq<char>) -> Option<int> {
    match without_hyphens(text) {
        Some(digits) => hex_value(digits),
        None => None,
    }
}

/// The UUID that a text spells: 32 digits, or the hyphenated layout alone, in braces, or behind
/// `urn:uuid:` in any case.
pub open spec fn uuid_spelled(text: Seq<char>) -> Option<int> {
    if text.len() == 32 {
        hex_value(text)
    } else if text.len() == 36 {
        hyphenated_value(text)
    } else if text.len() == 38 && text[0] == '{' && text[37] == '}' {
        hyphenated_value(text.subrange(1, 37))
    } else if text.len() == 45 && text.subrange(0, 9).map_values(|c: char| ascii_lower(c))
        == "urn:uuid:"@ {
        hyphenated_value(text.subrange(9, 45))
    } else {
        None
    }
}

/// The small hexadecimal digit of a number below sixteen.
pub open spec fn hex_digit(n: int) -> char {
    if n < 10 {
        ('0' as int + n) as char
    } else {
        ('a' as int + n - 10) as char
    }
}

/// The lowest `count` hexadecimal digits of a number, the highest of them first.
pub open spec fn hex_digits(number: int, count: nat) -> Seq<char>
    decreases count,
{
    if count == 0 {
        Seq::empty()
    } else {
        hex_digits(number / 16, (count - 1) as nat).push(hex_digit(number % 16))
    }
}

/// The text of a UUID: 32 small hexadecimal digits in the layout 8-4-4-4-12.
pub open spec fn uuid_text(id: Id) -> Seq<char> {
    let digits = hex_digits(id as int, 32);
    digits.subrange(0, 8).push('-') + digits.subrange(8, 12).push('-') + digits.subrange(
        12,
        16,
    ).push('-') + digits.subrange(16, 20).push('-') + digits.subrange(20, 32)
}

spec fn sixteen_to(count: nat) -> int
    decreases count,
{
    if count == 0 {
        1
    } else {
        16 * sixteen_to((count - 1) as nat)
    }
}

proof fn lemma_hex_digits(number: int, count: nat)
    requires
        0 <= number < sixteen_to(count),
    ensures
        hex_digits(number, count).len() == count,
        hex_value(hex_digits(number, count)) == Some(number),
        forall|i: int|
            0 <= i < count ==> {
                let c = #[trigger] hex_digits(number, count)[i];
                '0' <= c <= '9' || 'a' <= c <= 'f'
            },
    decreases count,
{
    if count > 0 {
        let rest = (count - 1) as nat;
        lemma_hex_digits(number / 16, rest);
        let digits = hex_digits(number, count);
        assert(digits.drop_last() =~= hex_digits(number / 16, rest));
        assert(hex_digit_value(digits.last()) == Some(number % 16));
    }
}

proof fn lemma_uuid_digits(id: Id)
    ensures
        hex_digits(id as int, 32).len() == 32,
        hex_value(hex_digits(id as int, 32)) == Some(id as int),
        forall|i: int|
            0 <= i < 32 ==> {
                let c = #[trigger] hex_digits(id as int, 32)[i];
                '0' <= c <= '9' || 'a' <= c <= 'f'
            },
{
    assert(sixteen_to(32) == 0x1_0000_0000_0000_0000_0000_0000_0000_0000) by {
        reveal_with_fuel(sixteen_to, 33);
    }
    lemma_hex_digits(id as int, 32);
}

/// What a UUID is written as reads back as the same UUID.
pub proof fn law_uuid_round_trip(id: Id)
    ensures
        uuid_spelled(uuid_text(id)) == Some(id as int),
{
    lemma_uuid_digits(id);
    let digits = hex_digits(id as int, 32);
    assert(without_hyphens(uuid_text(id))->0 =~= digits);
}

/// The text of a UUID is made of small hexadecimal digits and hyphens.
pub proof fn lemma_uuid_text_plain(id: Id)
    ensures
        uuid_text(id).len() == 36,
        forall|i: int|
            0 <= i < 36 ==> {
                let c = #[trigger] uuid_text(id)[i];
                '0' <= c <= '9' || 'a' <= c <= 'f' || c == '-'
            },
{
    lemma_uuid_digits(id);
}

/// Whether a UUID says that it is random: its version field says 4, its variant field RFC 4122.
pub open spec fn marked_random(id: Id) -> bool {
    &&& (id as int / 0x1000_0000_0000_0000_0000) % 16 == 4
    &&& (id as int / 0x4000_0000_0000_0000) % 4 == 2
}

/// `Uuid::new_v4`: a random UUID, which says so; nothing else is known of it.
#[verifier::external_body]
pub(crate) fn fresh_id() -> (id: Id)
    ensures
        marked_random(id),
{
    uuid::Uuid::new_v4().as_u128()
}

/// `Uuid::parse_str`: the UUID that a text spells, in any of the four layouts that the crate
/// writes, with digits in either case.
#[verifier::external_body]
pub(crate) fn parse_uuid(text: &str) -> (id: Option<Id>)
    ensures
        id is Some <==> uuid_spelled(text@) is Some,
        id is Some ==> uuid_spelled(text@) == Some(id->0 as int),
{
    uuid::Uuid::parse_str(text).ok().map(|id| id.as_u128())
}

/// `Uuid::to_string`: the hyphenated layout in small letters.
#[verifier::external_body]
pub(crate) fn write_uuid(id: Id) -> (text: String)
    ensures
        text@ == uuid_text(id),
{
    uuid::Uuid::from_u128(id).to_string()
}

/// The id of a guest's cart session, as the request header `X-Guest-Cart-Id` carries it.
#[derive(Debug, Clone, Copy, PartialEq, Eq, Structural)]
pub struct XGuestCartId(pub Id);

/// The id that the bytes of a guest cart header give, where they are printable and spell one.
pub open spec fn guest_id_in(bytes: Seq<u8>) -> Option<int> {
    if visible_bytes(bytes) {
        uuid_spelled(decode_utf8(bytes))
    } else {
        None
    }
}

/// A header of printable ASCII characters gives the id that its text spells.
pub proof fn law_guest_id_is_read(text: Seq<char>)
    requires
        is_ascii_chars(text),
        visible_ascii(text),
    ensures
        guest_id_in(encode_utf8(text)) == uuid_spelled(text),
{
    is_ascii_chars_encode_utf8(text);
    encode_utf8_decode_utf8(text);
    assert(visible_bytes(encode_utf8(text)));
}

impl XGuestCartId {
    /// The header's name.
    pub fn name() -> (name: &'static str)
        ensures
            name == "x-guest-cart-id",
    {
        "x-guest-cart-id"
    }

    /// Reads the first value of the header; an absent or malformed one gives nothing.
    pub fn decode(first: Option<&HeaderValue>) -> (id: Option<XGuestCartId>)
        ensures
            first is None ==> id is None,
            first is Some ==> (id is Some <==> guest_id_in(header_bytes(*first->0)) is Some),
            id is Some ==> guest_id_in(header_bytes(*first->0)) == Some((id->0).0 as int),
    {
        match first {
            Some(value) => {
                match header_value_text(value) {
                    Some(text) => {
                        proof {
                            encode_utf8_decode_utf8(text@);
                        }
                        match parse_uuid(text.as_str()) {
                            Some(id) => Some(XGuestCartId(id)),
                            None => None,
                        }
                    },
                    None => None,
                }
            },
            None => None,
        }
    }

    /// Writes the header's value. Reading it back gives the same id.
    pub fn encode(&self) -> (value: HeaderValue)
        ensures
            header_bytes(value) == encode_utf8(uuid_text(self.0)),
            guest_id_in(header_bytes(value)) == Some(self.0 as int),
    {
        let text = write_uuid(self.0);
        proof {
            lemma_uuid_text_plain(self.0);
            assert(is_ascii_chars(text@));
            is_ascii_chars_encode_utf8(text@);
            encode_utf8_decode_utf8(text@);
            law_uuid_round_trip(self.0);
        }
        let value = header_value(text.as_str());
        value.unwrap()
    }
}

} // verus!
