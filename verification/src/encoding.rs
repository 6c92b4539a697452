//! Encodings of text and bytes: queries of addresses, and base64.
use vstd::prelude::*;
use vstd::utf8::encode_utf8;

verus! {

/// The byte stands for itself in a form: a letter or a digit of ASCII, or one of `*-._`.
pub open spec fn is_plain(byte: u8) -> bool {
    ||| '0' as u8 <= byte <= '9' as u8
    ||| 'A' as u8 <= byte <= 'Z' as u8
    ||| 'a' as u8 <= byte <= 'z' as u8
    ||| byte == '*' as u8 || byte == '-' as u8 || byte == '.' as u8 || byte == '_' as u8
}

/// The hexadecimal digit of a number below 16.
pub open spec fn hex_digit(number: int) -> char {
    if number < 10 {
        ('0' as int + number) as char
    } else {
        ('A' as int + number - 10) as char
    }
}

/// A byte in a form: where it does not stand for itself, a space is a plus sign, and every other
/// byte is a percent sign and its two hexadecimal digits.
pub open spec fn form_byte(byte: u8) -> Seq<char> {
    if is_plain(byte) {
        seq![byte as char]
    } else if byte == ' ' as u8 {
        seq!['+']
    } else {
        seq!['%', hex_digit(byte as int / 16), hex_digit(byte as int % 16)]
    }
}

/// Bytes in a form, one after the other.
pub open spec fn form_bytes(bytes: Seq<u8>) -> Seq<char>
    decreases bytes.len(),
{
    if bytes.len() == 0 {
        Seq::empty()
    } else {
        form_bytes(bytes.drop_last()) + form_byte(bytes.last())
    }
}

/// A pair of texts in a form: each as its bytes in UTF-8, with an equals sign between them.
pub open spec fn form_pair(pair: (Seq<char>, Seq<char>)) -> Seq<char> {
    form_bytes(encode_utf8(pair.0)) + seq!['='] + form_bytes(encode_utf8(pair.1))
}

/// The form of a list of pairs, in their order, with ampersands between them.
pub open spec fn form_encoded(pairs: Seq<(Seq<char>, Seq<char>)>) -> Seq<char>
    decreases pairs.len(),
{
    if pairs.len() == 0 {
        Seq::empty()
    } else if pairs.len() == 1 {
        form_pair(pairs[0])
    } else {
        form_encoded(pairs.drop_last()) + seq!['&'] + form_pair(pairs.last())
    }
}

/// Pairs of texts as mathematical objects, in their order.
pub open spec fn pair_views(pairs: Seq<(&str, &str)>) -> Seq<(Seq<char>, Seq<char>)> {
    Seq::new(pairs.len(), |i: int| (pairs[i].0@, pairs[i].1@))
}

/// `serde_urlencoded::to_string` of a list of pairs of texts: it succeeds, with the pairs in the
/// format `application/x-www-form-urlencoded`.
#[verifier::external_body]
pub(crate) fn encode_form(pairs: &Vec<(&str, &str)>) -> (outcome: Result<String, String>)
    ensures
        outcome is Ok,
        outcome->Ok_0@ == form_encoded(pair_views(pairs@)),
{
    serde_urlencoded::to_string(pairs).map_err(|e| e.to_string())
}

/// The character of the standard base64 alphabet that stands for a number below 64.
pub open spec fn base64_char(number: int) -> char {
    if number < 26 {
        ('A' as int + number) as char
    } else if number < 52 {
        ('a' as int + number - 26) as char
    } else if number < 62 {
        ('0' as int + number - 52) as char
    } else if number == 62 {
        '+'
    } else {
        '/'
    }
}

/// The byte at that place, or zero past the end.
pub open spec fn byte_at(bytes: Seq<u8>, place: int) -> int {
    if place < bytes.len() {
        bytes[place] as int
    } else {
        0
    }
}

/// The six bits that the character at that place of a base64 text stands for: four characters
/// share the bits of three bytes.
pub open spec fn six_bits(bytes: Seq<u8>, place: int) -> int {
    let first = place / 4 * 3;
    if place % 4 == 0 {
        byte_at(bytes, first) / 4
    } else if place % 4 == 1 {
        byte_at(bytes, first) % 4 * 16 + byte_at(bytes, first + 1) / 16
    } else if place % 4 == 2 {
        byte_at(bytes, first + 1) % 16 * 4 + byte_at(bytes, first + 2) / 64
    } else {
        byte_at(bytes, first + 2) % 64
    }
}

/// The standard base64 text of these bytes: a character for every six bits, and padding up to a
/// multiple of four characters.
pub open spec fn base64_text(bytes: Seq<u8>) -> Seq<char> {
    Seq::new(
        (bytes.len() + 2) / 3 * 4,
        |place: int|
            if 6 * place < 8 * bytes.len() {
                base64_char(six_bits(bytes, place))
            } else {
                '='
            },
    )
}

/// The base64 text of so many bytes fits into memory: it has four characters for every three
/// bytes begun.
pub open spec fn encodable(length: nat) -> bool {
    (length + 2) / 3 * 4 <= isize::MAX
}

/// Whether the base64 text of so many bytes fits into memory.
pub fn is_encodable(length: usize) -> (fits: bool)
    ensures
        fits == encodable(length as nat),
{
    let most: usize = isize::MAX as usize / 4 * 3;
    assert(length <= most <==> encodable(length as nat)) by {
        let groups = (length + 2) / 3;
        assert(groups * 4 <= isize::MAX <==> groups <= isize::MAX as int / 4);
    }
    length <= most
}

/// `base64::Engine::encode` of `base64::engine::general_purpose::STANDARD`: the standard alphabet,
/// with padding. It panics where the text does not fit into memory.
#[verifier::external_body]
pub(crate) fn encode_base64(bytes: &Vec<u8>) -> (text: String)
    requires
        encodable(bytes@.len()),
    ensures
        text@ == base64_text(bytes@),
{
    base64::Engine::encode(&base64::engine::general_purpose::STANDARD, bytes)
}

/// Different numbers have different characters, and none of them is the padding.
proof fn base64_char_is_injective(one: int, other: int)
    requires
        0 <= one < 64,
        0 <= other < 64,
        base64_char(one) == base64_char(other),
    ensures
        one == other,
{
}

proof fn base64_char_is_no_padding(number: int)
    requires
        0 <= number < 64,
    ensures
        base64_char(number) != '=',
{
}

proof fn six_bits_are_six(bytes: Seq<u8>, place: int)
    requires
        0 <= place,
    ensures
        0 <= six_bits(bytes, place) < 64,
{
}

/// Where two texts agree and neither is padded, they stand for the same bits.
proof fn same_bits(one: Seq<u8>, other: Seq<u8>, place: int)
    requires
        base64_text(one) == base64_text(other),
        one.len() == other.len(),
        0 <= place < base64_text(one).len(),
        6 * place < 8 * one.len(),
    ensures
        six_bits(one, place) == six_bits(other, place),
{
    six_bits_are_six(one, place);
    six_bits_are_six(other, place);
    assert(base64_text(one)[place] == base64_char(six_bits(one, place)));
    assert(base64_text(other)[place] == base64_char(six_bits(other, place)));
    base64_char_is_injective(six_bits(one, place), six_bits(other, place));
}

/// Of texts that agree, the one of fewer bytes cannot have more padding.
proof fn no_fewer_bytes(one: Seq<u8>, other: Seq<u8>)
    requires
        base64_text(one) == base64_text(other),
    ensures
        one.len() >= other.len(),
{
    let groups = (one.len() + 2) / 3;
    assert(base64_text(one).len() == groups * 4);
    assert(base64_text(other).len() == (other.len() + 2) / 3 * 4);
    if one.len() < other.len() {
        let place = if one.len() == 3 * groups - 2 {
            4 * groups - 2
        } else {
            4 * groups - 1
        };
        assert(base64_text(one)[place] == '=');
        assert(base64_text(other)[place] == base64_char(six_bits(other, place)));
        six_bits_are_six(other, place);
        base64_char_is_no_padding(six_bits(other, place));
    }
}

/// The content of a file can be read back from its base64 text: no other content has it.
pub proof fn base64_reads_back(one: Seq<u8>, other: Seq<u8>)
    requires
        base64_text(one) == base64_text(other),
    ensures
        one == other,
{
    no_fewer_bytes(one, other);
    no_fewer_bytes(other, one);
    assert forall|k: int| 0 <= k < one.len() implies one[k] == other[k] by {
        let start = k / 3 * 4;
        assert(start / 4 * 3 + k % 3 == k);
        if k % 3 == 0 {
            same_bits(one, other, start);
            same_bits(one, other, start + 1);
        } else if k % 3 == 1 {
            same_bits(one, other, start + 1);
            same_bits(one, other, start + 2);
        } else {
            same_bits(one, other, start + 2);
            same_bits(one, other, start + 3);
        }
    }
    assert(one =~= other);
}

} // verus!
