//! Text: the order of keys, letter case, decimal numerals, and the pieces of a size.
use vstd::prelude::*;

verus! {

/// A text that may be missing, as a mathematical object.
pub open spec fn text_view(text: Option<String>) -> Option<Seq<char>> {
    match text {
        Some(text) => Some(text@),
        None => None,
    }
}

/// `a` comes strictly before `b` in the order of their code points, compared from the front.
pub open spec fn precedes(a: Seq<char>, b: Seq<char>) -> bool
    decreases a.len(),
{
    if b.len() == 0 {
        false
    } else if a.len() == 0 {
        true
    } else if a[0] == b[0] {
        precedes(a.drop_first(), b.drop_first())
    } else {
        (a[0] as int) < (b[0] as int)
    }
}

/// No text comes before itself.
pub proof fn precedes_is_irreflexive(a: Seq<char>)
    ensures
        !precedes(a, a),
    decreases a.len(),
{
    if a.len() > 0 {
        precedes_is_irreflexive(a.drop_first());
    }
}

/// The order is transitive.
pub proof fn precedes_is_transitive(a: Seq<char>, b: Seq<char>, c: Seq<char>)
    requires
        precedes(a, b),
        precedes(b, c),
    ensures
        precedes(a, c),
    decreases a.len(),
{
    if a.len() > 0 && a[0] == b[0] && b[0] == c[0] {
        precedes_is_transitive(a.drop_first(), b.drop_first(), c.drop_first());
    }
}

/// Two different texts are always ordered one way or the other.
pub proof fn precedes_is_total(a: Seq<char>, b: Seq<char>)
    ensures
        a == b || precedes(a, b) || precedes(b, a),
    decreases a.len(),
{
    if a.len() > 0 && b.len() > 0 && a[0] == b[0] {
        precedes_is_total(a.drop_first(), b.drop_first());
        if a.drop_first() == b.drop_first() {
            assert(a =~= seq![a[0]] + a.drop_first());
            assert(b =~= seq![b[0]] + b.drop_first());
        }
    } else if a.len() == 0 && b.len() == 0 {
        assert(a =~= b);
    }
}

/// `str`'s `<` of the standard library, which orders two texts by the positions of their code
/// points in the code charts, from the front.
#[verifier::external_body]
pub(crate) fn is_before(a: &str, b: &str) -> (before: bool)
    ensures
        before == precedes(a@, b@),
{
    a < b
}

/// `str`'s `==` of the standard library: two texts are equal when they hold the same characters.
#[verifier::external_body]
pub(crate) fn same(a: &str, b: &str) -> (equal: bool)
    ensures
        equal == (a@ == b@),
{
    a == b
}

/// `str::ends_with` of the standard library, for a text as the pattern.
#[verifier::external_body]
pub(crate) fn has_suffix(text: &str, suffix: &str) -> (found: bool)
    ensures
        found == suffix@.is_suffix_of(text@),
{
    text.ends_with(suffix)
}

/// The part stands somewhere in the text.
pub open spec fn contains_text(text: Seq<char>, part: Seq<char>) -> bool {
    exists|i: int|
        0 <= i && i + part.len() <= text.len() && #[trigger] text.subrange(i, i + part.len())
            == part
}

/// `str::contains` of the standard library, for a text as the pattern.
#[verifier::external_body]
pub(crate) fn has_part(text: &str, part: &str) -> (found: bool)
    ensures
        found == contains_text(text@, part@),
{
    text.contains(part)
}

/// An ASCII capital as its small letter, every other character as itself.
pub open spec fn small_letter(c: char) -> char {
    if 'A' <= c <= 'Z' {
        (c as u32 + 32) as char
    } else {
        c
    }
}

/// The two texts are equal but for the case of their ASCII letters.
pub open spec fn equal_but_for_case(a: Seq<char>, b: Seq<char>) -> bool {
    a.len() == b.len() && forall|i: int|
        0 <= i < a.len() ==> small_letter(#[trigger] a[i]) == small_letter(b[i])
}

/// `str::eq_ignore_ascii_case` of the standard library.
#[verifier::external_body]
pub(crate) fn same_but_for_case(a: &str, b: &str) -> (equal: bool)
    ensures
        equal == equal_but_for_case(a@, b@),
{
    a.eq_ignore_ascii_case(b)
}

/// The character is a decimal digit of ASCII.
pub open spec fn is_digit(c: char) -> bool {
    '0' <= c <= '9'
}

/// Every character is a decimal digit of ASCII.
pub open spec fn all_digits(text: Seq<char>) -> bool {
    forall|i: int| 0 <= i < text.len() ==> is_digit(#[trigger] text[i])
}

/// The number that a row of decimal digits stands for.
pub open spec fn numeral_value(digits: Seq<char>) -> nat
    decreases digits.len(),
{
    if digits.len() == 0 {
        0
    } else {
        numeral_value(digits.drop_last()) * 10 + (digits.last() as nat - '0' as nat) as nat
    }
}

/// The `i64` that a text stands for: an optional sign, then one or more decimal digits and
/// nothing else, of a number in range.
pub open spec fn integer_of(text: Seq<char>) -> Option<i64> {
    let signed = text.len() > 0 && (text[0] == '+' || text[0] == '-');
    let digits = if signed {
        text.drop_first()
    } else {
        text
    };
    let size = numeral_value(digits);
    let number = if signed && text[0] == '-' {
        -size
    } else {
        size as int
    };
    if digits.len() > 0 && all_digits(digits) && i64::MIN <= number <= i64::MAX {
        Some(number as i64)
    } else {
        None
    }
}

/// `str::parse::<i64>` of the standard library: an optional sign followed by only digits, in
/// range of an `i64`, is the number; anything else is an error.
#[verifier::external_body]
pub(crate) fn parse_integer(text: &str) -> (integer: Option<i64>)
    ensures
        integer == integer_of(text@),
{
    text.parse::<i64>().ok()
}

/// How many characters stand before the first `separator`, or in all if there is none.
pub open spec fn run(text: Seq<char>, separator: char) -> nat
    decreases text.len(),
{
    if text.len() == 0 || text[0] == separator {
        0
    } else {
        1 + run(text.drop_first(), separator)
    }
}

/// The pieces of a text between its separators: one more than there are separators.
pub open spec fn split(text: Seq<char>, separator: char) -> Seq<Seq<char>>
    decreases text.len(),
{
    let end = run(text, separator) as int;
    if end < text.len() {
        seq![text.take(end)] + split(text.skip(end + 1), separator)
    } else {
        seq![text]
    }
}

/// A run ends at the text's end or at a separator, and holds none.
proof fn run_ends(text: Seq<char>, separator: char)
    ensures
        run(text, separator) <= text.len(),
        run(text, separator) < text.len() ==> text[run(text, separator) as int] == separator,
        forall|i: int| 0 <= i < run(text, separator) ==> #[trigger] text[i] != separator,
    decreases text.len(),
{
    if text.len() > 0 && text[0] != separator {
        let rest = text.drop_first();
        run_ends(rest, separator);
        assert forall|i: int| 0 <= i < run(text, separator) implies #[trigger] text[i]
            != separator by {
            if i > 0 {
                assert(text[i] == rest[i - 1]);
            }
        }
    }
}

/// A place that the text's end or a separator marks, with no separator before it, ends the run.
proof fn run_is(text: Seq<char>, separator: char, end: nat)
    requires
        end <= text.len(),
        end < text.len() ==> text[end as int] == separator,
        forall|i: int| 0 <= i < end ==> #[trigger] text[i] != separator,
    ensures
        run(text, separator) == end,
{
    run_ends(text, separator);
}

/// The first two pieces of a text, the second one only where there is a separator.
pub(crate) fn first_pieces(text: &str, separator: char) -> (pieces: (&str, Option<&str>))
    ensures
        split(text@, separator).len() >= 1,
        pieces.0@ == split(text@, separator)[0],
        pieces.1 is Some <==> split(text@, separator).len() > 1,
        pieces.1 matches Some(second) ==> second@ == split(text@, separator)[1],
{
    let length = text.unicode_len();
    let mut place: usize = 0;
    let mut first: Option<usize> = None;
    let mut second: Option<usize> = None;
    for c in iter: text.chars()
        invariant
            iter.seq() == text@,
            length == text@.len(),
            place == iter.index(),
            match first {
                Some(p) => p < place && text@[p as int] == separator && no_separator(
                    text@,
                    separator,
                    0,
                    p as int,
                ),
                None => no_separator(text@, separator, 0, place as int),
            },
            match (first, second) {
                (Some(p), Some(q)) => p < q < place && text@[q as int] == separator
                    && no_separator(text@, separator, p + 1, q as int),
                (Some(p), None) => no_separator(text@, separator, p + 1, place as int),
                (None, Some(_)) => false,
                (None, None) => true,
            },
    {
        if c == separator {
            if first.is_none() {
                first = Some(place);
            } else if second.is_none() {
                second = Some(place);
            }
        }
        place = place + 1;
    }
    match first {
        None => {
            proof {
                run_is(text@, separator, text@.len());
            }
            (text, None)
        },
        Some(p) => {
            let end = match second {
                Some(q) => q,
                None => length,
            };
            proof {
                let rest = text@.skip(p + 1);
                run_is(text@, separator, p as nat);
                assert forall|i: int| 0 <= i < end - p - 1 implies #[trigger] rest[i]
                    != separator by {
                    assert(rest[i] == text@[p + 1 + i]);
                }
                run_is(rest, separator, (end - p - 1) as nat);
                assert(rest.take(end - p - 1) =~= text@.subrange(p + 1, end as int));
                assert(text@.take(p as int) =~= text@.subrange(0, p as int));
                assert(split(rest, separator)[0] =~= rest.take(end - p - 1));
            }
            (text.substring_char(0, p), Some(text.substring_char(p + 1, end)))
        },
    }
}

/// None of the characters from `from` up to `to` is the separator.
spec fn no_separator(text: Seq<char>, separator: char, from: int, to: int) -> bool {
    forall|i: int| from <= i < to ==> #[trigger] text[i] != separator
}

/// The decimal numeral of a number.
pub open spec fn decimal(number: nat) -> Seq<char>
    decreases number,
{
    let digit = ('0' as nat + number % 10) as char;
    if number < 10 {
        seq![digit]
    } else {
        decimal(number / 10).push(digit)
    }
}

fn digit_text(digit: usize) -> (text: &'static str)
    requires
        digit < 10,
    ensures
        text@ == seq![('0' as nat + digit) as char],
{
    proof {
        reveal_strlit("0");
        reveal_strlit("1");
        reveal_strlit("2");
        reveal_strlit("3");
        reveal_strlit("4");
        reveal_strlit("5");
        reveal_strlit("6");
        reveal_strlit("7");
        reveal_strlit("8");
        reveal_strlit("9");
    }
    let text = match digit {
        0 => "0",
        1 => "1",
        2 => "2",
        3 => "3",
        4 => "4",
        5 => "5",
        6 => "6",
        7 => "7",
        8 => "8",
        _ => "9",
    };
    assert(text@ =~= seq![('0' as nat + digit) as char]);
    text
}

/// The decimal numeral of a number.
pub fn decimal_text(number: usize) -> (text: String)
    ensures
        text@ == decimal(number as nat),
    decreases number,
{
    let front = if number < 10 {
        String::new()
    } else {
        decimal_text(number / 10)
    };
    let text = front.concat(digit_text(number % 10));
    assert(text@ =~= decimal(number as nat));
    text
}

/// The numeral of a number is made of digits, and the number is what it stands for.
pub proof fn decimal_reads_back(number: nat)
    ensures
        decimal(number).len() > 0,
        all_digits(decimal(number)),
        numeral_value(decimal(number)) == number,
    decreases number,
{
    let digit = ('0' as nat + number % 10) as char;
    if number < 10 {
        assert(decimal(number).drop_last() =~= Seq::empty());
        assert(numeral_value(Seq::empty()) == 0);
    } else {
        decimal_reads_back(number / 10);
        assert(decimal(number).drop_last() =~= decimal(number / 10));
    }
    assert(decimal(number).last() == digit);
}

/// The numeral of a number reads as that number.
pub proof fn integer_of_decimal(number: nat)
    requires
        number <= i64::MAX,
    ensures
        integer_of(decimal(number)) == Some(number as i64),
{
    decimal_reads_back(number);
    assert(is_digit(decimal(number)[0]));
}

/// A text of digits on both sides of a separator that is none has those two pieces.
pub proof fn pieces_of_two(first: Seq<char>, second: Seq<char>, separator: char)
    requires
        all_digits(first),
        all_digits(second),
        !is_digit(separator),
    ensures
        split(first + seq![separator] + second, separator) == seq![first, second],
{
    let text = first + seq![separator] + second;
    assert forall|i: int| 0 <= i < first.len() implies #[trigger] text[i] != separator by {
        assert(is_digit(first[i]));
    }
    run_is(text, separator, first.len());
    let rest = text.skip(first.len() as int + 1);
    assert(rest =~= second);
    assert(text.take(first.len() as int) =~= first);
    assert forall|i: int| 0 <= i < second.len() implies #[trigger] second[i] != separator by {
        assert(is_digit(second[i]));
    }
    run_is(second, separator, second.len());
    assert(split(second, separator) == seq![second]);
    assert(split(text, separator) =~= seq![first, second]);
}

/// A text without separators is one piece, and the piece before the first separator is the first
/// one of a text.
pub proof fn split_at_the_first_separator(first: Seq<char>, rest: Seq<char>, separator: char)
    requires
        forall|i: int| 0 <= i < first.len() ==> #[trigger] first[i] != separator,
    ensures
        split(first, separator) == seq![first],
        split(first + seq![separator] + rest, separator) == seq![first] + split(rest, separator),
{
    let text = first + seq![separator] + rest;
    run_is(first, separator, first.len());
    assert forall|i: int| 0 <= i < first.len() implies #[trigger] text[i] != separator by {
        assert(text[i] == first[i]);
    }
    run_is(text, separator, first.len());
    assert(text.skip(first.len() as int + 1) =~= rest);
    assert(text.take(first.len() as int) =~= first);
}

/// The first character in which two texts differ decides their order, and a text comes before
/// every longer one that begins with it.
pub proof fn first_difference_decides(
    common: Seq<char>,
    one: char,
    after_one: Seq<char>,
    other: char,
    after_other: Seq<char>,
)
    requires
        one != other,
    ensures
        precedes(common + seq![one] + after_one, common + seq![other] + after_other) <==> (
        one as int) < (other as int),
        precedes(common, common + seq![one] + after_one),
    decreases common.len(),
{
    let a = common + seq![one] + after_one;
    let b = common + seq![other] + after_other;
    if common.len() > 0 {
        let rest = common.drop_first();
        first_difference_decides(rest, one, after_one, other, after_other);
        assert(a.drop_first() =~= rest + seq![one] + after_one);
        assert(b.drop_first() =~= rest + seq![other] + after_other);
        assert(a[0] == common[0] && b[0] == common[0]);
    } else {
        assert(a[0] == one && b[0] == other);
    }
}

/// The numeral of a number other than zero does not begin with a zero.
pub proof fn decimal_has_no_leading_zero(number: nat)
    requires
        number > 0,
    ensures
        decimal(number)[0] != '0',
    decreases number,
{
    if number >= 10 {
        decimal_has_no_leading_zero(number / 10);
        decimal_reads_back(number / 10);
        assert(decimal(number)[0] == decimal(number / 10)[0]);
    }
}

} // verus!
