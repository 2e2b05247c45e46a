//! Plain text: comparing it, reading numbers and flags out of it.
use vstd::prelude::*;
use vstd::utf8::encode_utf8;

verus! {

/// The characters of `text`, in order.
pub fn chars_of(text: &str) -> (chars: Vec<char>)
    ensures
        chars@ == text@,
{
    let mut chars: Vec<char> = Vec::new();
    for c in it: text.chars()
        invariant
            chars@ == text@.take(it.index() as int),
            it.seq() == text@,
    {
        chars.push(c);
        assert(text@.take(it.index() + 1) =~= text@.take(it.index() as int).push(c));
    }
    assert(text@.take(text@.len() as int) =~= text@);
    chars
}

/// Whether two texts are the same.
pub fn same_text(left: &str, right: &str) -> (same: bool)
    ensures
        same == (left@ == right@),
{
    left.to_owned() == right.to_owned()
}

/// How many bytes `text` takes in UTF-8.
pub fn byte_length(text: &str) -> (length: usize)
    ensures
        length == encode_utf8(text@).len(),
{
    text.as_bytes().len()
}

/// `head` followed by `tail`.
pub fn join(head: &str, tail: &str) -> (joined: String)
    ensures
        joined@ == head@ + tail@,
{
    let mut joined = head.to_owned();
    joined.append(tail);
    joined
}

/// `left`, `middle` and `right`, one after the other.
pub fn join3(left: &str, middle: &str, right: &str) -> (joined: String)
    ensures
        joined@ == left@ + middle@ + right@,
{
    let mut joined = left.to_owned();
    joined.append(middle);
    joined.append(right);
    joined
}

/// Whether `text` begins with `prefix`.
pub fn starts_with(text: &str, prefix: &str) -> (yes: bool)
    ensures
        yes == prefix@.is_prefix_of(text@),
{
    let chars = chars_of(text);
    let wanted = chars_of(prefix);
    if wanted.len() > chars.len() {
        return false;
    }
    for i in 0..wanted.len()
        invariant
            chars@ == text@,
            wanted@ == prefix@,
            wanted.len() <= chars.len(),
            forall|j: int| 0 <= j < i ==> wanted@[j] == chars@[j],
    {
        if wanted[i] != chars[i] {
            assert(prefix@[i as int] != text@.subrange(0, prefix@.len() as int)[i as int]);
            return false;
        }
    }
    assert(prefix@ =~= text@.subrange(0, prefix@.len() as int));
    true
}

/// An ASCII capital letter as its small letter, and any other character as itself.
pub open spec fn ascii_lower(c: char) -> char {
    if 'A' <= c <= 'Z' {
        (c as u32 + 32) as char
    } else {
        c
    }
}

/// Whether two texts differ at most in the case of their ASCII letters.
pub open spec fn same_ignoring_ascii_case(left: Seq<char>, right: Seq<char>) -> bool {
    left.map_values(|c: char| ascii_lower(c)) == right.map_values(|c: char| ascii_lower(c))
}

fn lower(c: char) -> (small: char)
    ensures
        small == ascii_lower(c),
{
    if c >= 'A' && c <= 'Z' {
        (c as u8 + 32) as char
    } else {
        c
    }
}

/// Compares two texts without regard to the case of ASCII letters.
pub fn eq_ignore_ascii_case(left: &str, right: &str) -> (same: bool)
    ensures
        same == same_ignoring_ascii_case(left@, right@),
{
    let a = chars_of(left);
    let b = chars_of(right);
    let ghost low_left = left@.map_values(|c: char| ascii_lower(c));
    let ghost low_right = right@.map_values(|c: char| ascii_lower(c));
    if a.len() != b.len() {
        assert(low_left.len() != low_right.len());
        return false;
    }
    for i in 0..a.len()
        invariant
            a@ == left@,
            b@ == right@,
            a.len() == b.len(),
            low_left == left@.map_values(|c: char| ascii_lower(c)),
            low_right == right@.map_values(|c: char| ascii_lower(c)),
            forall|j: int| 0 <= j < i ==> low_left[j] == low_right[j],
    {
        if lower(a[i]) != lower(b[i]) {
            assert(low_left[i as int] != low_right[i as int]);
            return false;
        }
    }
    assert(low_left =~= low_right);
    true
}

/// Whether a form's check box text means "ticked".
pub open spec fn means_ticked(text: Seq<char>) -> bool {
    same_ignoring_ascii_case(text, "true"@) || text == "on"@
}

/// Reads a form's check box text.
pub fn is_ticked(text: &str) -> (ticked: bool)
    ensures
        ticked == means_ticked(text@),
{
    eq_ignore_ascii_case(text, "true") || same_text(text, "on")
}

/// The characters that Unicode calls white space.
pub open spec fn white_space(c: char) -> bool {
    ||| '\u{9}' <= c <= '\u{d}'
    ||| c == '\u{20}'
    ||| c == '\u{85}'
    ||| c == '\u{a0}'
    ||| c == '\u{1680}'
    ||| '\u{2000}' <= c <= '\u{200a}'
    ||| c == '\u{2028}'
    ||| c == '\u{2029}'
    ||| c == '\u{202f}'
    ||| c == '\u{205f}'
    ||| c == '\u{3000}'
}

/// Whether a text holds nothing but white space.
pub open spec fn blank(text: Seq<char>) -> bool {
    forall|i: int| 0 <= i < text.len() ==> white_space(#[trigger] text[i])
}

/// Whether trimming `text` would leave nothing.
pub fn is_blank(text: &str) -> (yes: bool)
    ensures
        yes == blank(text@),
{
    let chars = chars_of(text);
    for i in 0..chars.len()
        invariant
            chars@ == text@,
            forall|j: int| 0 <= j < i ==> white_space(#[trigger] text@[j]),
    {
        let c = chars[i];
        let space = (c >= '\u{9}' && c <= '\u{d}') || c == '\u{20}' || c == '\u{85}' || c == '\u{a0}'
            || c == '\u{1680}' || (c >= '\u{2000}' && c <= '\u{200a}') || c == '\u{2028}' || c
            == '\u{2029}' || c == '\u{202f}' || c == '\u{205f}' || c == '\u{3000}';
        if !space {
            assert(!white_space(text@[i as int]));
            return false;
        }
    }
    true
}

/// An optional text, with the empty one taken for an absent one.
pub open spec fn present(text: Option<String>) -> Option<String> {
    if text is Some && text->0@.len() == 0 {
        None
    } else {
        text
    }
}

/// Turns `Some("")` into `None` and leaves everything else as it is.
pub fn option_string_empty_as_none(opt_s: Option<String>) -> (kept: Option<String>)
    ensures
        kept == present(opt_s),
{
    match opt_s {
        Some(text) => {
            if text.as_str().is_empty() {
                None
            } else {
                Some(text)
            }
        },
        None => None,
    }
}

/// A text with a backslash put in front of each quotation mark.
pub open spec fn quotes_escaped(text: Seq<char>) -> Seq<char>
    decreases text.len(),
{
    if text.len() == 0 {
        Seq::empty()
    } else if text.last() == '"' {
        quotes_escaped(text.drop_last()) + seq!['\\', '"']
    } else {
        quotes_escaped(text.drop_last()).push(text.last())
    }
}

/// Puts a backslash in front of each quotation mark of `text`.
pub fn escape_quotes(text: &str) -> (escaped: String)
    ensures
        escaped@ == quotes_escaped(text@),
{
    let mut escaped = String::new();
    let length = text.unicode_len();
    for i in 0..length
        invariant
            length == text@.len(),
            escaped@ == quotes_escaped(text@.take(i as int)),
    {
        let ghost before = escaped@;
        let c = text.get_char(i);
        assert(text@.take(i + 1).drop_last() =~= text@.take(i as int));
        if c == '"' {
            escaped.append("\\\"");
            proof {
                reveal_strlit("\\\"");
                assert("\\\""@ =~= seq!['\\', '"']);
            }
        } else {
            escaped.append(text.substring_char(i, i + 1));
            assert(text@.subrange(i as int, i + 1) =~= seq![c]);
            assert(escaped@ =~= before.push(c));
        }
    }
    assert(text@.take(length as int) =~= text@);
    escaped
}

/// Whether `c` is one of the ten ASCII digits.
pub open spec fn is_digit(c: char) -> bool {
    '0' <= c <= '9'
}

/// The number that a row of decimal digits stands for.
pub open spec fn digits_value(digits: Seq<char>) -> int
    decreases digits.len(),
{
    if digits.len() == 0 {
        0
    } else {
        digits_value(digits.drop_last()) * 10 + (digits.last() as int - '0' as int)
    }
}

/// Whether `digits` is one digit or more and nothing else.
pub open spec fn all_digits(digits: Seq<char>) -> bool {
    digits.len() > 0 && forall|i: int| 0 <= i < digits.len() ==> is_digit(#[trigger] digits[i])
}

/// The whole number that a text spells: digits with at most one sign in front.
pub open spec fn integer_spelled(text: Seq<char>) -> Option<int> {
    if text.len() > 0 && text[0] == '-' && all_digits(text.skip(1)) {
        Some(-digits_value(text.skip(1)))
    } else if text.len() > 0 && text[0] == '+' && all_digits(text.skip(1)) {
        Some(digits_value(text.skip(1)))
    } else if all_digits(text) {
        Some(digits_value(text))
    } else {
        None
    }
}

/// The number that a text spells, where 64 bits hold it.
pub open spec fn i64_spelled(text: Seq<char>) -> Option<i64> {
    match integer_spelled(text) {
        Some(n) => if i64::MIN <= n <= i64::MAX {
            Some(n as i64)
        } else {
            None
        },
        None => None,
    }
}

/// Reads a whole number the way `str::parse::<i64>` does.
pub fn parse_i64(text: &str) -> (number: Option<i64>)
    ensures
        number == i64_spelled(text@),
{
    let chars = chars_of(text);
    if chars.len() == 0 {
        return None;
    }
    let negative = chars[0] == '-';
    let signed = negative || chars[0] == '+';
    let start: usize = if signed {
        1
    } else {
        0
    };
    let ghost digits = text@.skip(start as int);
    assert(integer_spelled(text@) == if all_digits(digits) {
        Some(
            if negative {
                -digits_value(digits)
            } else {
                digits_value(digits)
            },
        )
    } else {
        None
    }) by {
        assert(text@.skip(0) =~= text@);
        if all_digits(text@) {
            assert(is_digit(text@[0]));
        }
    }
    if start == chars.len() {
        return None;
    }
    let mut total: i128 = 0;
    let mut small = true;
    for i in start..chars.len()
        invariant
            chars@ == text@,
            start <= 1,
            start < chars.len(),
            digits == text@.skip(start as int),
            !all_digits(digits) ==> integer_spelled(text@) is None,
            forall|j: int| 0 <= j < i - start ==> is_digit(#[trigger] digits[j]),
            small ==> total == digits_value(digits.take(i - start)) && 0 <= total
                <= 9223372036854775808,
            !small ==> digits_value(digits.take(i - start)) > 9223372036854775808,
    {
        let c = chars[i];
        let ghost k = i - start;
        assert(digits[k] == c);
        if !(c >= '0' && c <= '9') {
            assert(!is_digit(digits[k]));
            proof {
                if all_digits(digits) {
                    assert(is_digit(digits[k]));
                }
            }
            return None;
        }
        assert(digits.take(k + 1).drop_last() =~= digits.take(k));
        if small {
            total = total * 10 + (c as i128 - '0' as i128);
            if total > 9223372036854775808 {
                small = false;
            }
        }
    }
    assert(digits.take(digits.len() as int) =~= digits);
    if !small {
        return None;
    }
    if negative {
        Some((-total) as i64)
    } else if total <= 9223372036854775807 {
        Some(total as i64)
    } else {
        None
    }
}

} // verus!
