//! How numbers, check boxes and blanks are read out of text.
use crate::sql::decimal;
use crate::text::{
    all_digits, ascii_lower, blank, digits_value, i64_spelled, is_digit, means_ticked,
    quotes_escaped, white_space,
};
use vstd::prelude::*;

verus! {

/// Whether a character is this small letter or its capital.
pub open spec fn is_letter(c: char, small: char, capital: char) -> bool {
    c == small || c == capital
}

/// A check box is ticked if and only if its text is `on`, or `true` in letters of any size.
pub proof fn law_ticked(text: Seq<char>)
    ensures
        means_ticked(text) == (text == seq!['o', 'n'] || (text.len() == 4 && is_letter(
            text[0],
            't',
            'T',
        ) && is_letter(text[1], 'r', 'R') && is_letter(text[2], 'u', 'U') && is_letter(
            text[3],
            'e',
            'E',
        ))),
{
    reveal_strlit("true");
    reveal_strlit("on");
    assert("on"@ =~= seq!['o', 'n']);
    let low = text.map_values(|c: char| ascii_lower(c));
    let wanted = "true"@.map_values(|c: char| ascii_lower(c));
    assert(wanted =~= seq!['t', 'r', 'u', 'e']);
    assert forall|c: char| #[trigger] ascii_lower(c) == 't' <==> is_letter(c, 't', 'T') by {
        lemma_lower(c, 't', 'T');
    }
    assert forall|c: char| #[trigger] ascii_lower(c) == 'r' <==> is_letter(c, 'r', 'R') by {
        lemma_lower(c, 'r', 'R');
    }
    assert forall|c: char| #[trigger] ascii_lower(c) == 'u' <==> is_letter(c, 'u', 'U') by {
        lemma_lower(c, 'u', 'U');
    }
    assert forall|c: char| #[trigger] ascii_lower(c) == 'e' <==> is_letter(c, 'e', 'E') by {
        lemma_lower(c, 'e', 'E');
    }
    if text.len() == 4 {
        assert(low[0] == ascii_lower(text[0]));
        assert(low[1] == ascii_lower(text[1]));
        assert(low[2] == ascii_lower(text[2]));
        assert(low[3] == ascii_lower(text[3]));
        if is_letter(text[0], 't', 'T') && is_letter(text[1], 'r', 'R') && is_letter(
            text[2],
            'u',
            'U',
        ) && is_letter(text[3], 'e', 'E') {
            assert(low =~= wanted);
        }
    } else {
        assert(low.len() != wanted.len());
    }
}

proof fn lemma_lower(c: char, small: char, capital: char)
    requires
        'A' <= capital <= 'Z',
        small as int == capital as int + 32,
    ensures
        ascii_lower(c) == small <==> is_letter(c, small, capital),
{
}

proof fn lemma_decimal(n: nat)
    ensures
        all_digits(decimal(n)),
        digits_value(decimal(n)) == n,
    decreases n,
{
    let digits = decimal(n);
    if n < 10 {
        let c = ('0' as int + n) as char;
        assert(digits =~= seq![c]);
        assert(is_digit(c));
        assert(digits.drop_last() =~= Seq::empty());
        assert(digits_value(digits.drop_last()) == 0);
    } else {
        lemma_decimal(n / 10);
        let c = ('0' as int + n % 10) as char;
        let rest = decimal(n / 10);
        assert(digits == rest.push(c));
        assert(digits.drop_last() =~= rest);
        assert(is_digit(c));
        assert forall|i: int| 0 <= i < digits.len() implies is_digit(#[trigger] digits[i]) by {
            if i < rest.len() {
                assert(is_digit(rest[i]));
            }
        }
    }
}

/// A number is read back from its digits, with or without a plus sign, and its opposite from them
/// behind a minus sign.
pub proof fn law_number_round_trip(n: i64)
    ensures
        n >= 0 ==> i64_spelled(decimal(n as nat)) == Some(n),
        n >= 0 ==> i64_spelled(seq!['+'] + decimal(n as nat)) == Some(n),
        n <= 0 ==> i64_spelled(seq!['-'] + decimal((-n) as nat)) == Some(n),
{
    let size = if n >= 0 {
        n as nat
    } else {
        (-n) as nat
    };
    let digits = decimal(size);
    lemma_decimal(size);
    assert(is_digit(digits[0]));
    assert((seq!['+'] + digits).skip(1) =~= digits);
    assert((seq!['-'] + digits).skip(1) =~= digits);
}

/// Zeros in front of the digits change nothing.
pub proof fn law_leading_zero(digits: Seq<char>)
    requires
        all_digits(digits),
    ensures
        i64_spelled(seq!['0'] + digits) == i64_spelled(digits),
        i64_spelled(seq!['+', '0'] + digits) == i64_spelled(seq!['+'] + digits),
        i64_spelled(seq!['-', '0'] + digits) == i64_spelled(seq!['-'] + digits),
{
    let longer = seq!['0'] + digits;
    lemma_leading_zero(digits);
    assert(all_digits(longer)) by {
        assert forall|i: int| 0 <= i < longer.len() implies is_digit(#[trigger] longer[i]) by {
            if i > 0 {
                assert(longer[i] == digits[i - 1]);
            }
        }
    }
    assert(is_digit(digits[0]));
    assert(is_digit(longer[0]));
    assert((seq!['+', '0'] + digits).skip(1) =~= longer);
    assert((seq!['-', '0'] + digits).skip(1) =~= longer);
    assert((seq!['+'] + digits).skip(1) =~= digits);
    assert((seq!['-'] + digits).skip(1) =~= digits);
}

proof fn lemma_leading_zero(digits: Seq<char>)
    ensures
        digits_value(seq!['0'] + digits) == digits_value(digits),
    decreases digits.len(),
{
    let longer = seq!['0'] + digits;
    if digits.len() > 0 {
        lemma_leading_zero(digits.drop_last());
        assert(longer.drop_last() =~= seq!['0'] + digits.drop_last());
    } else {
        assert(longer.drop_last() =~= Seq::empty());
        assert(digits_value(longer.drop_last()) == 0);
    }
}

/// Nothing but ten digits, behind at most one sign, is read as a number; and there is a digit.
pub proof fn law_only_digits_are_numbers(text: Seq<char>)
    requires
        i64_spelled(text) is Some,
    ensures
        text.len() > 0,
        text[0] == '+' || text[0] == '-' ==> text.len() > 1,
        '0' <= text[0] <= '9' || text[0] == '+' || text[0] == '-',
        forall|i: int| 0 < i < text.len() ==> '0' <= #[trigger] text[i] <= '9',
{
    if all_digits(text) {
        assert(is_digit(text[0]));
        assert forall|i: int| 0 < i < text.len() implies '0' <= #[trigger] text[i] <= '9' by {
            assert(is_digit(text[i]));
        }
    } else {
        let digits = text.skip(1);
        assert forall|i: int| 0 < i < text.len() implies '0' <= #[trigger] text[i] <= '9' by {
            assert(digits[i - 1] == text[i]);
            assert(is_digit(digits[i - 1]));
        }
    }
}

/// A text with a visible ASCII character is not blank; one of spaces, tabs and line ends is.
pub proof fn law_blank(text: Seq<char>)
    ensures
        (exists|i: int| 0 <= i < text.len() && '!' <= #[trigger] text[i] <= '~') ==> !blank(text),
        (forall|i: int|
            0 <= i < text.len() ==> {
                let c = #[trigger] text[i];
                c == ' ' || c == '\t' || c == '\n' || c == '\r'
            }) ==> blank(text),
{
    if exists|i: int| 0 <= i < text.len() && '!' <= #[trigger] text[i] <= '~' {
        let i = choose|i: int| 0 <= i < text.len() && '!' <= #[trigger] text[i] <= '~';
        assert(!white_space(text[i]));
    }
}

/// White space is what Unicode calls so, and nothing else.
pub proof fn law_white_space(c: char)
    ensures
        white_space(c) == seq![
            '\u{9}',
            '\u{a}',
            '\u{b}',
            '\u{c}',
            '\u{d}',
            '\u{20}',
            '\u{85}',
            '\u{a0}',
            '\u{1680}',
            '\u{2000}',
            '\u{2001}',
            '\u{2002}',
            '\u{2003}',
            '\u{2004}',
            '\u{2005}',
            '\u{2006}',
            '\u{2007}',
            '\u{2008}',
            '\u{2009}',
            '\u{200a}',
            '\u{2028}',
            '\u{2029}',
            '\u{202f}',
            '\u{205f}',
            '\u{3000}',
        ].contains(c),
{
    let spaces = seq![
        '\u{9}',
        '\u{a}',
        '\u{b}',
        '\u{c}',
        '\u{d}',
        '\u{20}',
        '\u{85}',
        '\u{a0}',
        '\u{1680}',
        '\u{2000}',
        '\u{2001}',
        '\u{2002}',
        '\u{2003}',
        '\u{2004}',
        '\u{2005}',
        '\u{2006}',
        '\u{2007}',
        '\u{2008}',
        '\u{2009}',
        '\u{200a}',
        '\u{2028}',
        '\u{2029}',
        '\u{202f}',
        '\u{205f}',
        '\u{3000}',
    ];
    if white_space(c) {
        let place = if c <= '\u{d}' {
            c as int - 9
        } else if c == '\u{20}' {
            5
        } else if c == '\u{85}' {
            6
        } else if c == '\u{a0}' {
            7
        } else if c == '\u{1680}' {
            8
        } else if c <= '\u{200a}' {
            c as int - 0x2000 + 9
        } else if c == '\u{2028}' {
            20
        } else if c == '\u{2029}' {
            21
        } else if c == '\u{202f}' {
            22
        } else if c == '\u{205f}' {
            23
        } else {
            24
        };
        assert(spaces[place] == c);
    }
}

/// A text without the backslashes in front of its quotation marks.
pub open spec fn quotes_plain(text: Seq<char>) -> Seq<char>
    decreases text.len(),
{
    if text.len() == 0 {
        Seq::empty()
    } else if text.last() == '"' && text.len() > 1 {
        quotes_plain(text.take(text.len() - 2)).push('"')
    } else {
        quotes_plain(text.drop_last()).push(text.last())
    }
}

/// Every quotation mark of an escaped text stands behind a backslash, and without those backslashes
/// it is the text again.
pub proof fn law_quotes_escaped(text: Seq<char>)
    ensures
        quotes_plain(quotes_escaped(text)) == text,
        forall|i: int|
            0 <= i < quotes_escaped(text).len() && #[trigger] quotes_escaped(text)[i] == '"' ==> i
                > 0 && quotes_escaped(text)[i - 1] == '\\',
    decreases text.len(),
{
    if text.len() > 0 {
        let rest = text.drop_last();
        law_quotes_escaped(rest);
        let before = quotes_escaped(rest);
        let after = quotes_escaped(text);
        if text.last() == '"' {
            assert(after.take(after.len() - 2) =~= before);
            assert(after.last() == '"');
        } else {
            assert(after.drop_last() =~= before);
        }
        assert(rest.push(text.last()) =~= text);
        assert forall|i: int| 0 <= i < after.len() && #[trigger] after[i] == '"' implies i > 0
            && after[i - 1] == '\\' by {
            if i < before.len() {
                assert(before[i] == '"');
                assert(before[i - 1] == '\\');
            }
        }
    }
}

} // verus!
