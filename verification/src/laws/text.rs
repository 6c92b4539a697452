//! Numerals, parts of texts, and letter case.
use crate::text::{
    all_digits, contains_text, decimal, decimal_reads_back, equal_but_for_case, integer_of,
    is_digit, numeral_value,
};
use vstd::prelude::*;

verus! {

/// The character is a decimal digit.
pub open spec fn is_decimal_digit(c: char) -> bool {
    '0' <= c <= '9'
}

/// A numeral reads as its number, with a plus sign before it too, and with a minus sign as the
/// negative number, where that is an `i64`. A number that is none does not read.
pub proof fn numerals_read_as_their_numbers(number: nat)
    ensures
        number <= i64::MAX ==> integer_of(decimal(number)) == Some(number as i64) && integer_of(
            seq!['+'] + decimal(number),
        ) == Some(number as i64),
        number > i64::MAX ==> integer_of(decimal(number)) is None && integer_of(
            seq!['+'] + decimal(number),
        ) is None,
        -number >= i64::MIN ==> integer_of(seq!['-'] + decimal(number)) == Some((-number) as i64),
        -number < i64::MIN ==> integer_of(seq!['-'] + decimal(number)) is None,
{
    decimal_reads_back(number);
    assert(is_digit(decimal(number)[0]));
    assert((seq!['+'] + decimal(number)).drop_first() =~= decimal(number));
    assert((seq!['-'] + decimal(number)).drop_first() =~= decimal(number));
}

/// Zeros before a numeral do not matter.
pub proof fn leading_zeros_do_not_matter(digits: Seq<char>)
    requires
        digits.len() > 0,
        forall|i: int| 0 <= i < digits.len() ==> is_decimal_digit(#[trigger] digits[i]),
    ensures
        integer_of(seq!['0'] + digits) == integer_of(digits),
{
    let longer = seq!['0'] + digits;
    zero_before_digits(digits);
    assert(is_decimal_digit(digits[0]));
    assert forall|i: int| 0 <= i < digits.len() implies is_digit(#[trigger] digits[i]) by {
        assert(is_decimal_digit(digits[i]));
    }
    assert(all_digits(digits));
    assert forall|i: int| 0 <= i < longer.len() implies is_digit(#[trigger] longer[i]) by {
        if i > 0 {
            assert(longer[i] == digits[i - 1]);
        }
    }
    assert(all_digits(longer));
}

proof fn zero_before_digits(digits: Seq<char>)
    ensures
        numeral_value(seq!['0'] + digits) == numeral_value(digits),
    decreases digits.len(),
{
    let longer = seq!['0'] + digits;
    if digits.len() == 0 {
        assert(longer.drop_last() =~= Seq::empty());
        assert(numeral_value(Seq::empty()) == 0);
        assert(longer.last() == '0');
    } else {
        zero_before_digits(digits.drop_last());
        assert(longer.drop_last() =~= seq!['0'] + digits.drop_last());
        assert(longer.last() == digits.last());
    }
}

/// A text does not read as a number where a character of it is no digit, but for a sign at its
/// beginning, or where it has no digit at all.
pub proof fn other_texts_are_no_numbers(text: Seq<char>, at: int)
    ensures
        0 < at < text.len() && !is_decimal_digit(text[at]) ==> integer_of(text) is None,
        text.len() > 0 && !is_decimal_digit(text[0]) && text[0] != '+' && text[0] != '-'
            ==> integer_of(text) is None,
        text.len() == 0 ==> integer_of(text) is None,
        text.len() == 1 && !is_decimal_digit(text[0]) ==> integer_of(text) is None,
{
    if 0 < at < text.len() && !is_decimal_digit(text[at]) {
        assert(text.drop_first()[at - 1] == text[at]);
        assert(!is_digit(text[at]));
    }
    if text.len() > 0 && !is_decimal_digit(text[0]) {
        assert(!is_digit(text[0]));
    }
}

/// A text has a part in it exactly where it is something before the part, the part, and something
/// after it.
pub proof fn a_part_has_something_around_it(text: Seq<char>, part: Seq<char>)
    ensures
        contains_text(text, part) <==> exists|before: Seq<char>, after: Seq<char>| #[trigger]
            (before + part + after) == text,
{
    if contains_text(text, part) {
        let i = choose|i: int|
            0 <= i && i + part.len() <= text.len() && #[trigger] text.subrange(i, i + part.len())
                == part;
        let before = text.take(i);
        let after = text.skip(i + part.len());
        assert(before + part + after =~= text);
    }
    if exists|before: Seq<char>, after: Seq<char>| #[trigger] (before + part + after) == text {
        let (before, after) = choose|before: Seq<char>, after: Seq<char>| #[trigger]
            (before + part + after) == text;
        let at = before.len() as int;
        assert(text.subrange(at, at + part.len()) =~= part);
    }
}

/// The two characters are one letter of ASCII, one of them a capital.
pub open spec fn is_capital_of(capital: char, small: char) -> bool {
    'A' <= capital <= 'Z' && small as int == capital as int + 32
}

/// Texts are equal but for case exactly where they are as long as each other and every character
/// is the same in both, or a letter that is a capital in one of them.
pub proof fn case_is_that_of_ascii_letters(one: Seq<char>, other: Seq<char>)
    ensures
        equal_but_for_case(one, other) <==> one.len() == other.len() && forall|i: int|
            0 <= i < one.len() ==> (#[trigger] one[i]) == other[i] || is_capital_of(
                one[i],
                other[i],
            ) || is_capital_of(other[i], one[i]),
{
}

} // verus!
