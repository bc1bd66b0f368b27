//! Decimal rendering and character-level helpers for the text of data rows.

use vstd::prelude::*;
use vstd::string::*;

verus! {

/// The character that stands for one decimal digit.
pub open spec fn digit_char(d: int) -> char {
    if d == 0 {
        '0'
    } else if d == 1 {
        '1'
    } else if d == 2 {
        '2'
    } else if d == 3 {
        '3'
    } else if d == 4 {
        '4'
    } else if d == 5 {
        '5'
    } else if d == 6 {
        '6'
    } else if d == 7 {
        '7'
    } else if d == 8 {
        '8'
    } else {
        '9'
    }
}

/// The decimal numeral of a natural number, without leading zeros.
pub open spec fn decimal(n: nat) -> Seq<char>
    decreases n,
{
    if n < 10 {
        seq![digit_char(n as int)]
    } else {
        decimal(n / 10).push(digit_char((n % 10) as int))
    }
}

/// The decimal numeral of an integer: a minus sign in front of negative numbers.
pub open spec fn signed_decimal(i: int) -> Seq<char> {
    if i < 0 {
        seq!['-'] + decimal((-i) as nat)
    } else {
        decimal(i as nat)
    }
}

fn digit_str(d: u64) -> (s: &'static str)
    requires
        d < 10,
    ensures
        s@ == seq![digit_char(d as int)],
{
    proof {
        reveal_strlit("0");
        reveal_strlit("1");
        reveal_strlit("2");
        reveal_strlit("3");
        reveal_strlit("4");
        reveal_strlit("5");
        reveal_strlit("6");
        reveal_strlit("7");
        reveal_strlit("8");
        reveal_strlit("9");
    }
    let s = if d == 0 {
        "0"
    } else if d == 1 {
        "1"
    } else if d == 2 {
        "2"
    } else if d == 3 {
        "3"
    } else if d == 4 {
        "4"
    } else if d == 5 {
        "5"
    } else if d == 6 {
        "6"
    } else if d == 7 {
        "7"
    } else if d == 8 {
        "8"
    } else {
        "9"
    };
    assert(s@ =~= seq![digit_char(d as int)]);
    s
}

/// Appends the decimal numeral of `n` to `out`.
pub fn push_decimal(out: &mut String, n: u64)
    ensures
        final(out)@ == old(out)@ + decimal(n as nat),
    decreases n,
{
    if n >= 10 {
        push_decimal(out, n / 10);
    }
    out.append(digit_str(n % 10));
    assert(final(out)@ =~= old(out)@ + decimal(n as nat));
}

/// Appends the decimal numeral of `i` to `out`, with a minus sign if it is negative.
pub fn push_signed_decimal(out: &mut String, i: i64)
    ensures
        final(out)@ == old(out)@ + signed_decimal(i as int),
{
    if i < 0 {
        proof {
            reveal_strlit("-");
        }
        out.append("-");
        let magnitude: u64 = if i == i64::MIN {
            9223372036854775808u64
        } else {
            (-i) as u64
        };
        push_decimal(out, magnitude);
        assert(final(out)@ =~= old(out)@ + signed_decimal(i as int));
    } else {
        push_decimal(out, i as u64);
    }
}

/// How often the character `c` occurs in `text`.
pub open spec fn count_char(text: Seq<char>, c: char) -> nat
    decreases text.len(),
{
    if text.len() == 0 {
        0
    } else {
        count_char(text.drop_last(), c) + if text.last() == c {
            1nat
        } else {
            0nat
        }
    }
}

/// A character occurs in a text put together from two as often as in both.
pub proof fn lemma_count_char_concat(a: Seq<char>, b: Seq<char>, c: char)
    ensures
        count_char(a + b, c) == count_char(a, c) + count_char(b, c),
    decreases b.len(),
{
    if b.len() == 0 {
        assert(a + b =~= a);
    } else {
        lemma_count_char_concat(a, b.drop_last(), c);
        assert((a + b).drop_last() =~= a + b.drop_last());
    }
}

/// Whether `c` is one of the ten decimal digits.
pub open spec fn is_decimal_digit(c: char) -> bool {
    c == '0' || c == '1' || c == '2' || c == '3' || c == '4' || c == '5' || c == '6' || c == '7'
        || c == '8' || c == '9'
}

/// Whether `c` is one of the letters `a` to `z` or `A` to `Z`.
pub open spec fn is_latin_letter(c: char) -> bool {
    ('a' as u32 <= c as u32 && c as u32 <= 'z' as u32) || ('A' as u32 <= c as u32 && c as u32
        <= 'Z' as u32)
}

/// A decimal numeral holds nothing but decimal digits.
pub proof fn lemma_decimal_holds_digits(n: nat, c: char)
    requires
        !is_decimal_digit(c),
    ensures
        count_char(decimal(n), c) == 0,
    decreases n,
{
    reveal_with_fuel(count_char, 2);
    if n < 10 {
        assert(c != digit_char(n as int));
        assert(decimal(n).drop_last() =~= Seq::<char>::empty());
    } else {
        lemma_decimal_holds_digits(n / 10, c);
        assert(c != digit_char((n % 10) as int));
        assert(decimal(n).drop_last() =~= decimal(n / 10));
    }
}

/// The numeral of an integer holds nothing but decimal digits and, at
/// most, a minus sign.
pub proof fn lemma_signed_decimal_holds_digits(i: int, c: char)
    requires
        !is_decimal_digit(c),
        c != '-',
    ensures
        count_char(signed_decimal(i), c) == 0,
{
    reveal_with_fuel(count_char, 2);
    if i < 0 {
        lemma_decimal_holds_digits((-i) as nat, c);
        lemma_count_char_concat(seq!['-'], decimal((-i) as nat), c);
        assert(seq!['-'].drop_last() =~= Seq::<char>::empty());
    } else {
        lemma_decimal_holds_digits(i as nat, c);
    }
}

/// Neither the comma nor the line feed is a decimal digit.
pub proof fn lemma_separators_are_no_digits()
    ensures
        !is_decimal_digit(','),
        !is_decimal_digit('\n'),
{
    assert forall|d: int| 0 <= d <= 9 implies ',' != #[trigger] digit_char(d) && '\n' != digit_char(
        d,
    ) by {}
}

/// Whether Unicode classes `c` as numeric.
pub uninterp spec fn is_numeric_char(c: char) -> bool;

/// Whether Unicode classes `c` as alphabetic.
pub uninterp spec fn is_alphabetic_char(c: char) -> bool;

/// `char::is_numeric` of the standard library. Claimed: its answer depends
/// on the character alone and is named, not spelled out; the ten decimal
/// digits are numeric.
#[verifier::external_body]
fn char_is_numeric(c: char) -> (b: bool)
    ensures
        b == is_numeric_char(c),
        is_decimal_digit(c) ==> b,
{
    c.is_numeric()
}

/// `char::is_alphabetic` of the standard library. Claimed: its answer
/// depends on the character alone and is named, not spelled out; the letters
/// `a` to `z` and `A` to `Z` are alphabetic.
#[verifier::external_body]
fn char_is_alphabetic(c: char) -> (b: bool)
    ensures
        b == is_alphabetic_char(c),
        is_latin_letter(c) ==> b,
{
    c.is_alphabetic()
}

/// `char::is_alphanumeric` of the standard library. Claimed: true exactly of
/// the characters that are alphabetic or numeric, the decimal digits and the
/// letters `a` to `z` and `A` to `Z` among them.
#[verifier::external_body]
fn char_is_alphanumeric(c: char) -> (b: bool)
    ensures
        b == (is_alphabetic_char(c) || is_numeric_char(c)),
        is_decimal_digit(c) || is_latin_letter(c) ==> b,
{
    c.is_alphanumeric()
}

/// The classes of characters that a text field can be held to.
#[derive(Clone, Copy, PartialEq, Eq, Debug, Structural)]
pub enum CharClass {
    Alphanumeric,
    Numeric,
    Alphabetic,
}

/// Whether `c` is numeric: a decimal digit or another character that
/// Unicode classes as numeric.
pub open spec fn is_numeric(c: char) -> bool {
    is_decimal_digit(c) || is_numeric_char(c)
}

/// Whether `c` is alphabetic: a Latin letter or another character that
/// Unicode classes as alphabetic.
pub open spec fn is_alphabetic(c: char) -> bool {
    is_latin_letter(c) || is_alphabetic_char(c)
}

/// Whether `c` belongs to `class`.
pub open spec fn in_class(c: char, class: CharClass) -> bool {
    match class {
        CharClass::Alphanumeric => is_alphabetic(c) || is_numeric(c),
        CharClass::Numeric => is_numeric(c),
        CharClass::Alphabetic => is_alphabetic(c),
    }
}

/// Whether every character of `text` belongs to `class`.
pub open spec fn all_in_class(text: Seq<char>, class: CharClass) -> bool {
    forall|i: int| 0 <= i < text.len() ==> in_class(#[trigger] text[i], class)
}

/// Whether `c` belongs to `class`.
pub fn char_in_class(c: char, class: CharClass) -> (b: bool)
    ensures
        b == in_class(c, class),
{
    match class {
        CharClass::Alphanumeric => char_is_alphanumeric(c),
        CharClass::Numeric => char_is_numeric(c),
        CharClass::Alphabetic => char_is_alphabetic(c),
    }
}

/// Whether every character of `text` belongs to `class`; true of the empty text.
pub fn text_in_class(text: &str, class: CharClass) -> (b: bool)
    ensures
        b == all_in_class(text@, class),
{
    let n = text.unicode_len();
    let mut i: usize = 0;
    while i < n
        invariant
            i <= n,
            n == text@.len(),
            forall|j: int| 0 <= j < i ==> in_class(#[trigger] text@[j], class),
        decreases n - i,
    {
        if !char_in_class(text.get_char(i), class) {
            return false;
        }
        i = i + 1;
    }
    true
}

/// Whether `a` and `b` are the same text.
pub fn same_text(a: &str, b: &str) -> (same: bool)
    ensures
        same == (a@ == b@),
{
    let n = a.unicode_len();
    if n != b.unicode_len() {
        return false;
    }
    let mut i: usize = 0;
    while i < n
        invariant
            i <= n,
            n == a@.len(),
            n == b@.len(),
            forall|j: int| 0 <= j < i ==> a@[j] == b@[j],
        decreases n - i,
    {
        if a.get_char(i) != b.get_char(i) {
            return false;
        }
        i = i + 1;
    }
    assert(a@ =~= b@);
    true
}

/// `text` with a semicolon in place of every comma.
pub open spec fn without_commas(text: Seq<char>) -> Seq<char> {
    Seq::new(
        text.len(),
        |i: int|
            if text[i] == ',' {
                ';'
            } else {
                text[i]
            },
    )
}

/// A copy of `text` with a semicolon in place of every comma, so that the
/// copy can stand in one field of a row.
pub fn replace_commas(text: &str) -> (clean: String)
    ensures
        clean@ == without_commas(text@),
{
    proof {
        reveal_strlit(";");
    }
    let n = text.unicode_len();
    let mut clean = String::new();
    let mut i: usize = 0;
    while i < n
        invariant
            i <= n,
            n == text@.len(),
            clean@ == without_commas(text@.take(i as int)),
            ";"@ == seq![';'],
        decreases n - i,
    {
        if text.get_char(i) == ',' {
            clean.append(";");
        } else {
            clean.append(text.substring_char(i, i + 1));
        }
        i = i + 1;
        assert(clean@ =~= without_commas(text@.take(i as int)));
    }
    assert(text@.take(n as int) =~= text@);
    clean
}

} // verus!
