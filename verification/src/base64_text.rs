//! Standard Base64 with padding (RFC 4648, section 4), the text form of keys,
//! nonces and signatures on the wire.

use vstd::prelude::*;

verus! {

/// The character of a 6-bit value in the standard alphabet: `A`–`Z`, `a`–`z`,
/// `0`–`9`, `+`, `/`.
pub open spec fn base64_digit(value: int) -> char {
    if value < 26 {
        (value + 65) as char
    } else if value < 52 {
        (value + 71) as char
    } else if value < 62 {
        (value - 4) as char
    } else if value == 62 {
        '+'
    } else {
        '/'
    }
}

/// Padded standard Base64: each group of three bytes becomes four digits of six
/// bits each, most significant first; a last group of one or two bytes is filled
/// with zero bits and padded with `=` to four characters.
pub open spec fn base64_standard_encode(bytes: Seq<u8>) -> Seq<char>
    decreases bytes.len(),
{
    if bytes.len() == 0 {
        Seq::empty()
    } else if bytes.len() == 1 {
        let b0 = bytes[0] as int;
        seq![base64_digit(b0 / 4), base64_digit((b0 % 4) * 16), '=', '=']
    } else if bytes.len() == 2 {
        let (b0, b1) = (bytes[0] as int, bytes[1] as int);
        seq![base64_digit(b0 / 4), base64_digit((b0 % 4) * 16 + b1 / 16), base64_digit((b1 % 16) * 4), '=']
    } else {
        let (b0, b1, b2) = (bytes[0] as int, bytes[1] as int, bytes[2] as int);
        seq![
            base64_digit(b0 / 4),
            base64_digit((b0 % 4) * 16 + b1 / 16),
            base64_digit((b1 % 16) * 4 + b2 / 64),
            base64_digit(b2 % 64),
        ] + base64_standard_encode(bytes.subrange(3, bytes.len() as int))
    }
}

/// Decoding that accepts only canonical padded standard Base64: the bytes whose
/// encoding is `text`, and `None` for every other text.
pub open spec fn base64_standard_decode(text: Seq<char>) -> Option<Seq<u8>> {
    if exists|bytes: Seq<u8>| #[trigger] base64_standard_encode(bytes) == text {
        Some(choose|bytes: Seq<u8>| #[trigger] base64_standard_encode(bytes) == text)
    } else {
        None
    }
}

/// Padded Base64 text has four characters for each started group of three bytes.
pub proof fn lemma_base64_length(bytes: Seq<u8>)
    ensures
        base64_standard_encode(bytes).len() == 4 * ((bytes.len() + 2) / 3),
    decreases bytes.len(),
{
    if bytes.len() >= 3 {
        lemma_base64_length(bytes.subrange(3, bytes.len() as int));
    }
}

proof fn lemma_digit_injective(i: int, j: int)
    requires
        0 <= i < 64,
        0 <= j < 64,
        base64_digit(i) == base64_digit(j),
    ensures
        i == j,
{
    let (ci, cj) = (base64_digit(i) as int, base64_digit(j) as int);
    assert(ci == cj);
}

proof fn lemma_digit_is_not_padding(i: int)
    requires
        0 <= i < 64,
    ensures
        base64_digit(i) != '=',
{
    assert(base64_digit(i) as int != '=' as int);
}

proof fn lemma_split(high: int, low: int, other_high: int, other_low: int, base: int)
    requires
        0 < base,
        0 <= low < base,
        0 <= other_low < base,
        high * base + low == other_high * base + other_low,
    ensures
        high == other_high,
        low == other_low,
{
    assert(high == other_high) by (nonlinear_arith)
        requires
            0 < base,
            0 <= low < base,
            0 <= other_low < base,
            high * base + low == other_high * base + other_low,
    ;
}

proof fn lemma_encoded_group(bytes: Seq<u8>)
    requires
        bytes.len() > 0,
    ensures
        ({
            let text = base64_standard_encode(bytes);
            let b0 = bytes[0] as int;
            &&& text.len() >= 4
            &&& text[0] == base64_digit(b0 / 4)
            &&& bytes.len() == 1 ==> text[1] == base64_digit((b0 % 4) * 16) && text[2] == '=' && text[3] == '='
            &&& bytes.len() >= 2 ==> text[1] == base64_digit((b0 % 4) * 16 + bytes[1] as int / 16)
            &&& bytes.len() == 2 ==> text[2] == base64_digit((bytes[1] as int % 16) * 4) && text[3] == '='
            &&& bytes.len() >= 3 ==> {
                &&& text[2] == base64_digit((bytes[1] as int % 16) * 4 + bytes[2] as int / 64)
                &&& text[3] == base64_digit(bytes[2] as int % 64)
                &&& text.subrange(4, text.len() as int) == base64_standard_encode(
                    bytes.subrange(3, bytes.len() as int),
                )
            }
        }),
{
    let text = base64_standard_encode(bytes);
    if bytes.len() >= 3 {
        let head = seq![
            base64_digit(bytes[0] as int / 4),
            base64_digit((bytes[0] as int % 4) * 16 + bytes[1] as int / 16),
            base64_digit((bytes[1] as int % 16) * 4 + bytes[2] as int / 64),
            base64_digit(bytes[2] as int % 64),
        ];
        let rest = base64_standard_encode(bytes.subrange(3, bytes.len() as int));
        assert(text == head + rest);
        assert(text.subrange(4, text.len() as int) =~= rest);
    }
}

/// Different bytes have different encodings.
pub proof fn lemma_base64_injective(bytes: Seq<u8>, other: Seq<u8>)
    requires
        base64_standard_encode(bytes) == base64_standard_encode(other),
    ensures
        bytes == other,
    decreases bytes.len(),
{
    let text = base64_standard_encode(bytes);
    lemma_base64_length(bytes);
    lemma_base64_length(other);
    if bytes.len() == 0 || other.len() == 0 {
        assert(bytes.len() == 0 && other.len() == 0);
        assert(bytes =~= other);
        return;
    }
    lemma_encoded_group(bytes);
    lemma_encoded_group(other);
    let (a0, c0) = (bytes[0] as int, other[0] as int);
    lemma_digit_injective(a0 / 4, c0 / 4);
    if bytes.len() >= 3 && other.len() >= 3 {
        let (a1, a2, c1, c2) = (bytes[1] as int, bytes[2] as int, other[1] as int, other[2] as int);
        lemma_digit_injective((a0 % 4) * 16 + a1 / 16, (c0 % 4) * 16 + c1 / 16);
        lemma_digit_injective((a1 % 16) * 4 + a2 / 64, (c1 % 16) * 4 + c2 / 64);
        lemma_digit_injective(a2 % 64, c2 % 64);
        lemma_split(a0 % 4, a1 / 16, c0 % 4, c1 / 16, 16);
        lemma_split(a1 % 16, a2 / 64, c1 % 16, c2 / 64, 4);
        let (rest, other_rest) = (bytes.subrange(3, bytes.len() as int), other.subrange(3, other.len() as int));
        lemma_base64_injective(rest, other_rest);
        assert(bytes =~= other) by {
            assert(bytes =~= seq![bytes[0], bytes[1], bytes[2]] + rest);
            assert(other =~= seq![other[0], other[1], other[2]] + other_rest);
        }
    } else if bytes.len() >= 3 || other.len() >= 3 {
        if bytes.len() >= 3 {
            lemma_digit_is_not_padding(bytes[2] as int % 64);
        } else {
            lemma_digit_is_not_padding(other[2] as int % 64);
        }
        assert(text[3] == '=');
    } else if bytes.len() != other.len() {
        if bytes.len() == 2 {
            lemma_digit_is_not_padding((bytes[1] as int % 16) * 4);
        } else {
            lemma_digit_is_not_padding((other[1] as int % 16) * 4);
        }
        assert(text[2] == '=');
    } else if bytes.len() == 1 {
        lemma_digit_injective((a0 % 4) * 16, (c0 % 4) * 16);
        assert(bytes =~= other);
    } else {
        let (a1, c1) = (bytes[1] as int, other[1] as int);
        lemma_digit_injective((a0 % 4) * 16 + a1 / 16, (c0 % 4) * 16 + c1 / 16);
        lemma_digit_injective((a1 % 16) * 4, (c1 % 16) * 4);
        lemma_split(a0 % 4, a1 / 16, c0 % 4, c1 / 16, 16);
        assert(bytes =~= other);
    }
}

/// Decoding gives back the bytes that were encoded.
pub proof fn lemma_base64_round_trip(bytes: Seq<u8>)
    ensures
        base64_standard_decode(base64_standard_encode(bytes)) == Some(bytes),
{
    let text = base64_standard_encode(bytes);
    assert(exists|b: Seq<u8>| #[trigger] base64_standard_encode(b) == text);
    let chosen = choose|b: Seq<u8>| #[trigger] base64_standard_encode(b) == text;
    lemma_base64_injective(chosen, bytes);
}

} // verus!
