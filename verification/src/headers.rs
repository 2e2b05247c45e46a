//! Response headers, kept in the HTTP crate's own header map.
use crate::text::ascii_lower;
use axum::http::{HeaderMap, HeaderValue};
use vstd::prelude::*;
use vstd::utf8::encode_utf8;

verus! {

/// The value of one HTTP header. Opaque; what it holds is `header_bytes`.
#[verifier::external_type_specification]
#[verifier::external_body]
pub struct ExHeaderValue(HeaderValue);

/// The HTTP crate's multimap of headers. Opaque; what it holds is `header_entries`.
#[verifier::external_type_specification]
#[verifier::external_body]
#[verifier::reject_recursive_types(T)]
pub struct ExHeaderMap<T>(HeaderMap<T>);

/// The bytes of a header value.
pub uninterp spec fn header_bytes(value: HeaderValue) -> Seq<u8>;

/// The values under each name of a header map, in order. Names are in small letters.
pub uninterp spec fn header_entries(headers: HeaderMap<HeaderValue>) -> Map<
    Seq<char>,
    Seq<Seq<u8>>,
>;

/// What a header map holds, as a mathematical map.
pub type Entries = Map<Seq<char>, Seq<Seq<u8>>>;

/// Whether a text may be a header value: no control character but the tab, and no DEL.
pub open spec fn header_valid(text: Seq<char>) -> bool {
    forall|i: int|
        0 <= i < text.len() ==> {
            let c = #[trigger] text[i];
            c == '\u{9}' || ('\u{20}' <= c && c != '\u{7f}')
        }
}

/// Whether a text is made of the printable ASCII characters and the tab.
pub open spec fn visible_ascii(text: Seq<char>) -> bool {
    forall|i: int|
        0 <= i < text.len() ==> {
            let c = #[trigger] text[i];
            c == '\u{9}' || '\u{20}' <= c < '\u{7f}'
        }
}

/// Whether every byte is a printable ASCII character or the tab.
pub open spec fn visible_bytes(bytes: Seq<u8>) -> bool {
    forall|i: int|
        0 <= i < bytes.len() ==> {
            let b = #[trigger] bytes[i];
            b == 9 || 32 <= b < 127
        }
}

/// Whether a text is a plain header name: ASCII letters, digits and hyphens, at most 64 of them.
pub open spec fn plain_name(name: Seq<char>) -> bool {
    &&& 0 < name.len() <= 64
    &&& forall|i: int|
        0 <= i < name.len() ==> {
            let c = #[trigger] name[i];
            'a' <= c <= 'z' || 'A' <= c <= 'Z' || '0' <= c <= '9' || c == '-'
        }
}

/// The form in which a header map keeps a name: in small letters.
pub open spec fn header_key(name: Seq<char>) -> Seq<char> {
    name.map_values(|c: char| ascii_lower(c))
}

/// No headers.
pub open spec fn no_headers() -> Entries {
    Map::empty()
}

/// `entries` with `text` as the only value under `name`.
pub open spec fn with_header(entries: Entries, name: Seq<char>, text: Seq<char>) -> Entries {
    entries.insert(header_key(name), seq![encode_utf8(text)])
}

/// `entries` with `text` under `name` where it may be a header value, and unchanged otherwise.
pub open spec fn with_valid_header(entries: Entries, name: Seq<char>, text: Seq<char>) -> Entries {
    if header_valid(text) {
        with_header(entries, name, text)
    } else {
        entries
    }
}

/// `HeaderMap::new`: a map without entries.
#[verifier::external_body]
pub(crate) fn header_map() -> (headers: HeaderMap<HeaderValue>)
    ensures
        header_entries(headers) == no_headers(),
{
    HeaderMap::new()
}

/// `HeaderMap::insert` with a static name: the name is kept in small letters, and the value
/// replaces all that stood under it. The call panics on a name that is not a token and on a map
/// of some twenty thousand entries; neither is admitted.
#[verifier::external_body]
pub(crate) fn header_insert(
    headers: &mut HeaderMap<HeaderValue>,
    name: &'static str,
    value: HeaderValue,
)
    requires
        plain_name(name@),
        header_entries(*old(headers)).dom().finite(),
        header_entries(*old(headers)).dom().len() < 100,
    ensures
        header_entries(*final(headers)) == header_entries(*old(headers)).insert(
            header_key(name@),
            seq![header_bytes(value)],
        ),
{
    headers.insert(name, value);
}

/// `HeaderValue::from_str`: takes a text all of whose UTF-8 bytes are the tab or at least 32 and
/// not 127. A character beyond ASCII is made of bytes from 128 up, so it is taken.
#[verifier::external_body]
pub(crate) fn header_value(text: &str) -> (value: Option<HeaderValue>)
    ensures
        value is Some <==> header_valid(text@),
        value is Some ==> header_bytes(value->0) == encode_utf8(text@),
{
    HeaderValue::from_str(text).ok()
}

/// `HeaderValue::from_static`: holds the bytes of the text. It panics on anything but printable
/// ASCII and the tab, which is not admitted.
#[verifier::external_body]
pub(crate) fn static_header_value(text: &'static str) -> (value: HeaderValue)
    requires
        visible_ascii(text@),
    ensures
        header_bytes(value) == encode_utf8(text@),
{
    HeaderValue::from_static(text)
}

/// `HeaderValue::to_str`: the value as text, where each of its bytes is printable ASCII or the tab.
#[verifier::external_body]
pub(crate) fn header_value_text(value: &HeaderValue) -> (text: Option<String>)
    ensures
        text is Some <==> visible_bytes(header_bytes(*value)),
        text is Some ==> encode_utf8(text->0@) == header_bytes(*value),
{
    value.to_str().ok().map(|text| text.to_owned())
}

/// Sets a header where `text` may be a header value, and tells whether it did.
pub fn set_header(headers: &mut HeaderMap<HeaderValue>, name: &'static str, text: &str) -> (set:
    bool)
    requires
        plain_name(name@),
        header_entries(*old(headers)).dom().finite(),
        header_entries(*old(headers)).dom().len() < 100,
    ensures
        set == header_valid(text@),
        header_entries(*final(headers)) == with_valid_header(
            header_entries(*old(headers)),
            name@,
            text@,
        ),
{
    match header_value(text) {
        Some(value) => {
            header_insert(headers, name, value);
            true
        },
        None => false,
    }
}

/// Sets a header to a fixed text.
pub fn set_static_header(
    headers: &mut HeaderMap<HeaderValue>,
    name: &'static str,
    text: &'static str,
)
    requires
        plain_name(name@),
        visible_ascii(text@),
        header_entries(*old(headers)).dom().finite(),
        header_entries(*old(headers)).dom().len() < 100,
    ensures
        header_entries(*final(headers)) == with_header(header_entries(*old(headers)), name@, text@),
{
    header_insert(headers, name, static_header_value(text));
}

} // verus!
