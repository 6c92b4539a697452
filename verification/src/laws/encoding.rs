//! What base64 texts and forms stand for.
use crate::encoding::{
    base64_text, encodable, form_byte, form_bytes, form_encoded, form_pair, six_bits,
};
use vstd::prelude::*;
use vstd::utf8::encode_utf8;

verus! {

/// The number that a character of a base64 text stands for.
pub open spec fn base64_number(c: char) -> int {
    if 'A' <= c <= 'Z' {
        c as int - 'A' as int
    } else if 'a' <= c <= 'z' {
        c as int - 'a' as int + 26
    } else if '0' <= c <= '9' {
        c as int - '0' as int + 52
    } else if c == '+' {
        62
    } else if c == '/' {
        63
    } else {
        64
    }
}

/// The character at a place that is not padded stands for the six bits there.
proof fn characters_stand_for_their_bits(bytes: Seq<u8>, place: int)
    requires
        0 <= place,
        6 * place < 8 * bytes.len(),
    ensures
        place < base64_text(bytes).len(),
        base64_number(base64_text(bytes)[place]) == six_bits(bytes, place),
        0 <= six_bits(bytes, place) < 64,
{
}

/// Decoding a base64 text gives back the bytes: each one is made of the bits of the two characters
/// that it lies in.
pub proof fn base64_texts_can_be_decoded(bytes: Seq<u8>, at: int)
    requires
        0 <= at < bytes.len(),
    ensures
        ({
            let text = base64_text(bytes);
            let place = at / 3 * 4 + at % 3;
            let first = base64_number(text[place]);
            let second = base64_number(text[place + 1]);
            &&& place + 1 < text.len()
            &&& first < 64 && second < 64
            &&& at % 3 == 0 ==> bytes[at] == first * 4 + second / 16
            &&& at % 3 == 1 ==> bytes[at] == first % 16 * 16 + second / 4
            &&& at % 3 == 2 ==> bytes[at] == first % 4 * 64 + second
        }),
{
    let place = at / 3 * 4 + at % 3;
    characters_stand_for_their_bits(bytes, place);
    characters_stand_for_their_bits(bytes, place + 1);
}

/// A base64 text has four characters for every three bytes begun, and padding behind the ones that
/// bits of the bytes lie in.
pub proof fn base64_texts_are_padded(bytes: Seq<u8>, place: int)
    ensures
        base64_text(bytes).len() % 4 == 0,
        4 * bytes.len() <= 3 * base64_text(bytes).len() < 4 * bytes.len() + 12,
        8 * bytes.len() <= 6 * place && place < base64_text(bytes).len() ==> base64_text(
            bytes,
        )[place] == '=',
        0 <= place && 6 * place < 8 * bytes.len() ==> base64_text(bytes)[place] != '=',
{
    if 0 <= place && 6 * place < 8 * bytes.len() {
        characters_stand_for_their_bits(bytes, place);
    }
}

/// Bytes can be encoded exactly where their base64 text fits into memory.
pub proof fn what_can_be_encoded_fits(bytes: Seq<u8>)
    ensures
        encodable(bytes.len()) <==> base64_text(bytes).len() <= isize::MAX,
{
}

/// The number that a hexadecimal digit stands for.
pub open spec fn hex_number(c: char) -> int {
    if '0' <= c <= '9' {
        c as int - '0' as int
    } else if 'A' <= c <= 'F' {
        c as int - 'A' as int + 10
    } else {
        16
    }
}

/// The character stands for itself in a form.
pub open spec fn stands_for_itself(c: char) -> bool {
    ||| 'a' <= c <= 'z'
    ||| 'A' <= c <= 'Z'
    ||| '0' <= c <= '9'
    ||| c == '*' || c == '-' || c == '.' || c == '_'
}

/// A byte in a form can be told from it: it is one character that stands for itself, a plus sign
/// for a space, or a percent sign and the two hexadecimal digits of the byte.
pub proof fn bytes_in_a_form_can_be_decoded(byte: u8)
    ensures
        stands_for_itself(byte as char) ==> form_byte(byte) == seq![byte as char],
        byte as char == ' ' ==> form_byte(byte) == seq!['+'],
        !stands_for_itself(byte as char) && byte as char != ' ' ==> form_byte(byte).len() == 3
            && form_byte(byte)[0] == '%' && hex_number(form_byte(byte)[1]) < 16 && hex_number(
            form_byte(byte)[2],
        ) < 16 && hex_number(form_byte(byte)[1]) * 16 + hex_number(form_byte(byte)[2]) == byte,
{
}

/// Bytes in a form stand one after the other.
pub proof fn bytes_in_a_form_follow_each_other(bytes: Seq<u8>, byte: u8)
    ensures
        form_bytes(Seq::empty()).len() == 0,
        form_bytes(bytes.push(byte)) == form_bytes(bytes) + form_byte(byte),
{
    assert(bytes.push(byte).drop_last() =~= bytes);
}

/// The pairs of a form stand one after the other, with an ampersand between them, each as its
/// name, an equals sign and its value.
pub proof fn pairs_of_a_form_follow_each_other(
    pairs: Seq<(Seq<char>, Seq<char>)>,
    name: Seq<char>,
    value: Seq<char>,
)
    ensures
        form_pair((name, value)) == form_bytes(encode_utf8(name)) + seq!['='] + form_bytes(
            encode_utf8(value),
        ),
        form_encoded(Seq::empty()).len() == 0,
        form_encoded(seq![(name, value)]) == form_pair((name, value)),
        pairs.len() > 0 ==> form_encoded(pairs.push((name, value))) == form_encoded(pairs)
            + seq!['&'] + form_pair((name, value)),
{
    assert(pairs.push((name, value)).drop_last() =~= pairs);
}

} // verus!
