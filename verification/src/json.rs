//! The JSON that goes into response headers and bodies.
use crate::headers::header_valid;
use crate::ids::hex_digit;
use serde_json::Value;
use vstd::prelude::*;

verus! {

/// The JSON crate's value. Opaque; what it holds is `json_of`.
#[verifier::external_type_specification]
#[verifier::external_body]
pub struct ExValue(Value);

/// A JSON value. The library makes texts, truth values and objects.
pub enum Json {
    Text(Seq<char>),
    Flag(bool),
    /// The members of an object, in the order in which they are written.
    Object(Seq<(Seq<char>, Json)>),
    /// Any other value: null, a number or an array, as it is written.
    Other(Seq<char>),
}

/// What a value of the JSON crate holds.
pub uninterp spec fn json_of(value: Value) -> Json;

/// How one character stands inside a JSON string.
pub open spec fn escaped_char(c: char) -> Seq<char> {
    if c == '"' {
        seq!['\\', '"']
    } else if c == '\\' {
        seq!['\\', '\\']
    } else if c == '\u{8}' {
        seq!['\\', 'b']
    } else if c == '\u{9}' {
        seq!['\\', 't']
    } else if c == '\u{a}' {
        seq!['\\', 'n']
    } else if c == '\u{c}' {
        seq!['\\', 'f']
    } else if c == '\u{d}' {
        seq!['\\', 'r']
    } else if '\u{1f}' >= c {
        seq!['\\', 'u', '0', '0', hex_digit(c as int / 16), hex_digit(c as int % 16)]
    } else {
        seq![c]
    }
}

/// How a text stands inside a JSON string.
pub open spec fn escaped(text: Seq<char>) -> Seq<char>
    decreases text.len(),
{
    if text.len() == 0 {
        Seq::empty()
    } else {
        escaped(text.drop_last()) + escaped_char(text.last())
    }
}

/// A text as a JSON string.
pub open spec fn quoted(text: Seq<char>) -> Seq<char> {
    seq!['"'] + escaped(text) + seq!['"']
}

/// A JSON value written without spaces.
pub open spec fn json_text(json: Json) -> Seq<char>
    decreases json,
{
    match json {
        Json::Text(text) => quoted(text),
        Json::Flag(flag) => if flag {
            "true"@
        } else {
            "false"@
        },
        Json::Object(members) => seq!['{'] + members_text(members) + seq!['}'],
        Json::Other(written) => written,
    }
}

/// The members of an object, with commas between them.
pub open spec fn members_text(members: Seq<(Seq<char>, Json)>) -> Seq<char>
    decreases members,
{
    if members.len() == 0 {
        Seq::empty()
    } else {
        let member = quoted(members.last().0) + seq![':'] + json_text(members.last().1);
        if members.len() == 1 {
            member
        } else {
            members_text(members.drop_last()) + seq![','] + member
        }
    }
}

/// Whether each name begins with a later character than the one before it.
pub open spec fn names_ascend(members: Seq<(&'static str, Value)>) -> bool {
    &&& forall|i: int| 0 <= i < members.len() ==> (#[trigger] members[i]).0@.len() > 0
    &&& forall|i: int, j: int|
        0 <= i < j < members.len() ==> (#[trigger] members[i]).0@[0] < (#[trigger] members[j]).0@[0]
}

/// `Value::String`: a JSON string with that text.
#[verifier::external_body]
pub(crate) fn text_value(text: &str) -> (value: Value)
    ensures
        json_of(value) == Json::Text(text@),
{
    Value::String(text.to_owned())
}

/// `Value::Bool`: a JSON truth value.
#[verifier::external_body]
pub(crate) fn flag_value(flag: bool) -> (value: Value)
    ensures
        json_of(value) == Json::Flag(flag),
{
    Value::Bool(flag)
}

/// `Value::from_iter` over name and value pairs: an object with those members. The crate keeps
/// the members sorted by name, or in the order given, as it was built; names that ascend from the
/// start stand in the same order either way.
#[verifier::external_body]
pub(crate) fn object_value(members: Vec<(&'static str, Value)>) -> (value: Value)
    requires
        names_ascend(members@),
    ensures
        json_of(value) == Json::Object(
            members@.map_values(|member: (&'static str, Value)| (member.0@, json_of(member.1))),
        ),
{
    members.into_iter().collect()
}

/// `Value::to_string`: the value in JSON's compact form.
#[verifier::external_body]
pub(crate) fn write_json(value: &Value) -> (text: String)
    ensures
        text@ == json_text(json_of(*value)),
{
    value.to_string()
}

/// The list of texts that a JSON text gives, or nothing where it is not a list of strings.
pub uninterp spec fn string_list_in(text: Seq<char>) -> Option<Seq<Seq<char>>>;

/// `serde_json::from_str::<Vec<String>>`: the strings of a JSON array of strings, in order.
#[verifier::external_body]
pub(crate) fn parse_string_list(text: &str) -> (list: Option<Vec<String>>)
    ensures
        list is Some <==> string_list_in(text@) is Some,
        list is Some ==> string_list_in(text@) == Some(
            list->0@.map_values(|item: String| item@),
        ),
{
    serde_json::from_str::<Vec<String>>(text).ok()
}

/// Whether the texts and names of a JSON value are free of the DEL character, and every other value
/// in it is written so that it may stand in a header.
pub open spec fn free_of_delete(json: Json) -> bool
    decreases json,
{
    match json {
        Json::Text(text) => !text.contains('\u{7f}'),
        Json::Flag(_) => true,
        Json::Object(members) => members_free_of_delete(members),
        Json::Other(written) => header_valid(written),
    }
}

/// Whether the names and values of an object's members are free of the DEL character.
pub open spec fn members_free_of_delete(members: Seq<(Seq<char>, Json)>) -> bool
    decreases members,
{
    members.len() == 0 || (members_free_of_delete(members.drop_last())
        && !members.last().0.contains('\u{7f}') && free_of_delete(members.last().1))
}

proof fn lemma_valid_join(left: Seq<char>, right: Seq<char>)
    requires
        header_valid(left),
        header_valid(right),
    ensures
        header_valid(left + right),
{
}

proof fn lemma_hex_digit_valid(n: int)
    requires
        0 <= n < 16,
    ensures
        '0' <= hex_digit(n) <= '9' || 'a' <= hex_digit(n) <= 'f',
{
}

proof fn lemma_escaped_char_valid(c: char)
    requires
        c != '\u{7f}',
    ensures
        header_valid(escaped_char(c)),
{
    if '\u{1f}' >= c {
        lemma_hex_digit_valid(c as int / 16);
        lemma_hex_digit_valid(c as int % 16);
    }
}

proof fn lemma_quoted_valid(text: Seq<char>)
    requires
        !text.contains('\u{7f}'),
    ensures
        header_valid(quoted(text)),
    decreases text.len(),
{
    if text.len() > 0 {
        assert(!text.drop_last().contains('\u{7f}')) by {
            if text.drop_last().contains('\u{7f}') {
                let i = choose|i: int|
                    0 <= i < text.drop_last().len() && text.drop_last()[i] == '\u{7f}';
                assert(text[i] == '\u{7f}');
            }
        }
        lemma_quoted_valid(text.drop_last());
        let inner = escaped(text.drop_last());
        assert(header_valid(inner)) by {
            assert forall|i: int| 0 <= i < inner.len() implies {
                let c = #[trigger] inner[i];
                c == '\u{9}' || ('\u{20}' <= c && c != '\u{7f}')
            } by {
                assert(quoted(text.drop_last())[i + 1] == inner[i]);
            }
        }
        assert(text.contains(text.last()));
        lemma_escaped_char_valid(text.last());
        lemma_valid_join(inner, escaped_char(text.last()));
    }
    lemma_valid_join(seq!['"'], escaped(text));
    lemma_valid_join(seq!['"'] + escaped(text), seq!['"']);
}

/// JSON text may be a header value unless a DEL character stands in one of its strings.
pub proof fn law_json_text_fits_header(json: Json)
    requires
        free_of_delete(json),
    ensures
        header_valid(json_text(json)),
    decreases json, 1int,
{
    match json {
        Json::Text(text) => {
            lemma_quoted_valid(text);
        },
        Json::Flag(flag) => {
            reveal_strlit("true");
            reveal_strlit("false");
        },
        Json::Object(members) => {
            lemma_members_fit_header(members);
            lemma_valid_join(seq!['{'], members_text(members));
            lemma_valid_join(seq!['{'] + members_text(members), seq!['}']);
        },
        Json::Other(_) => {},
    }
}

proof fn lemma_members_fit_header(members: Seq<(Seq<char>, Json)>)
    requires
        members_free_of_delete(members),
    ensures
        header_valid(members_text(members)),
    decreases members, 0int,
{
    if members.len() > 0 {
        let name = quoted(members.last().0);
        let value = json_text(members.last().1);
        lemma_quoted_valid(members.last().0);
        law_json_text_fits_header(members.last().1);
        lemma_valid_join(name, seq![':']);
        lemma_valid_join(name + seq![':'], value);
        if members.len() > 1 {
            lemma_members_fit_header(members.drop_last());
            lemma_valid_join(members_text(members.drop_last()), seq![',']);
            lemma_valid_join(
                members_text(members.drop_last()) + seq![','],
                name + seq![':'] + value,
            );
        }
    }
}

} // verus!
