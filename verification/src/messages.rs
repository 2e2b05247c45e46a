//! What a page is told through response headers: messages to show, and events to fire.
use crate::headers::{
    header_entries, header_map, no_headers, plain_name, set_header, set_static_header,
    visible_ascii, with_header, with_valid_header, Entries,
};
use crate::json::{json_of, json_text, object_value, text_value, write_json, Json};
use axum::http::{HeaderMap, HeaderValue};
use serde_json::Value;
use vstd::prelude::*;

verus! {

/// An object with one member.
pub open spec fn one_member(name: Seq<char>, value: Json) -> Json {
    Json::Object(seq![(name, value)])
}

/// An object with two members.
pub open spec fn two_members(
    first: Seq<char>,
    one: Json,
    second: Seq<char>,
    two: Json,
) -> Json {
    Json::Object(seq![(first, one), (second, two)])
}

/// What a message on the page is made of.
pub open spec fn shown(message: Seq<char>, kind: Seq<char>) -> Json {
    two_members("message"@, Json::Text(message), "type"@, Json::Text(kind))
}

/// The event that shows a message on the page.
pub open spec fn toast_json(message: Seq<char>, kind: Seq<char>) -> Json {
    one_member("showMessage"@, shown(message, kind))
}

/// An object with one member.
pub(crate) fn object1(name: &'static str, value: Value) -> (object: Value)
    requires
        name@.len() > 0,
    ensures
        json_of(object) == one_member(name@, json_of(value)),
{
    let members = vec![(name, value)];
    let ghost given = members@;
    let object = object_value(members);
    assert(given.map_values(|member: (&'static str, Value)| (member.0@, json_of(member.1)))
        =~= seq![(name@, json_of(value))]);
    object
}

/// An object with two members, named in order.
pub(crate) fn object2(
    first: &'static str,
    one: Value,
    second: &'static str,
    two: Value,
) -> (object: Value)
    requires
        first@.len() > 0,
        second@.len() > 0,
        first@[0] < second@[0],
    ensures
        json_of(object) == two_members(first@, json_of(one), second@, json_of(two)),
{
    let members = vec![(first, one), (second, two)];
    let ghost given = members@;
    let object = object_value(members);
    assert(given.map_values(|member: (&'static str, Value)| (member.0@, json_of(member.1)))
        =~= seq![(first@, json_of(one)), (second@, json_of(two))]);
    object
}

/// What a message on the page is made of.
pub(crate) fn message_value(message: &str, kind: &str) -> (value: Value)
    ensures
        json_of(value) == shown(message@, kind@),
{
    proof {
        reveal_strlit("message");
        reveal_strlit("type");
    }
    object2("message", text_value(message), "type", text_value(kind))
}

/// The event that shows a message on the page.
pub(crate) fn toast(message: &str, kind: &str) -> (value: Value)
    ensures
        json_of(value) == toast_json(message@, kind@),
{
    proof {
        reveal_strlit("showMessage");
    }
    object1("showMessage", message_value(message, kind))
}

/// Whether there is room for another header.
pub open spec fn roomy(entries: Entries) -> bool {
    entries.dom().finite() && entries.dom().len() < 50
}

/// `entries` with the events that the page is to fire, where they may stand in a header.
pub open spec fn with_trigger(entries: Entries, events: Json) -> Entries {
    with_valid_header(entries, "HX-Trigger"@, json_text(events))
}

/// The headers that keep the page as it is.
pub open spec fn quiet() -> Entries {
    with_header(no_headers(), "HX-Reswap"@, "none"@)
}

/// The headers of an answer without any.
pub(crate) fn bare_headers() -> (headers: HeaderMap<HeaderValue>)
    ensures
        header_entries(headers) == no_headers(),
        roomy(header_entries(headers)),
{
    header_map()
}

/// The headers that keep the page as it is.
pub(crate) fn quiet_headers() -> (headers: HeaderMap<HeaderValue>)
    ensures
        header_entries(headers) == quiet(),
        roomy(header_entries(headers)),
{
    let mut headers = header_map();
    keep_page(&mut headers);
    headers
}

/// Adds the header that keeps the page as it is.
pub(crate) fn keep_page(headers: &mut HeaderMap<HeaderValue>)
    requires
        roomy(header_entries(*old(headers))),
    ensures
        header_entries(*final(headers)) == with_header(
            header_entries(*old(headers)),
            "HX-Reswap"@,
            "none"@,
        ),
        header_entries(*old(headers)).dom().len() < 40 ==> roomy(header_entries(*final(headers))),
{
    proof {
        reveal_strlit("HX-Reswap");
        reveal_strlit("none");
        assert(plain_name("HX-Reswap"@));
        assert(visible_ascii("none"@));
    }
    set_static_header(headers, "HX-Reswap", "none");
}

/// Adds the events that the page is to fire, where they may stand in a header.
pub(crate) fn add_trigger(headers: &mut HeaderMap<HeaderValue>, events: &Value)
    requires
        roomy(header_entries(*old(headers))),
    ensures
        header_entries(*final(headers)) == with_trigger(
            header_entries(*old(headers)),
            json_of(*events),
        ),
{
    set_trigger(headers, write_json(events).as_str());
}

/// Adds the events that the page is to fire, given as text, and tells whether they may stand in
/// a header.
pub(crate) fn set_trigger(headers: &mut HeaderMap<HeaderValue>, events: &str) -> (set: bool)
    requires
        roomy(header_entries(*old(headers))),
    ensures
        set == crate::headers::header_valid(events@),
        header_entries(*final(headers)) == with_valid_header(
            header_entries(*old(headers)),
            "HX-Trigger"@,
            events@,
        ),
{
    proof {
        reveal_strlit("HX-Trigger");
        assert(plain_name("HX-Trigger"@));
    }
    set_header(headers, "HX-Trigger", events)
}

} // verus!
