//! Hexadecimal and decimal text: how bytes and numbers are written in digests, paths
//! and header values.

use vstd::prelude::*;

verus! {

/// The lowercase hexadecimal digit that stands for the nibble `n`.
pub open spec fn hex_digit(n: int) -> char {
    if n < 10 {
        (48 + n) as char
    } else {
        (87 + n) as char
    }
}

/// The value of the ASCII hexadecimal digit `b`, of either case.
pub open spec fn hex_value(b: u8) -> Option<int> {
    if 48 <= b <= 57 {
        Some(b - 48)
    } else if 97 <= b <= 102 {
        Some(b - 87)
    } else if 65 <= b <= 70 {
        Some(b - 55)
    } else {
        None
    }
}

/// Every byte of `text` is a hexadecimal digit, of either case.
pub open spec fn is_hex_text(text: Seq<u8>) -> bool {
    forall|i: int| 0 <= i < text.len() ==> hex_value(#[trigger] text[i]) is Some
}

/// `b` is one of `0`..`9`, `a`..`f`.
pub open spec fn is_lower_hex_byte(b: u8) -> bool {
    48 <= b <= 57 || 97 <= b <= 102
}

/// Every byte of `text` is a lowercase hexadecimal digit.
pub open spec fn is_lower_hex_text(text: Seq<u8>) -> bool {
    forall|i: int| 0 <= i < text.len() ==> is_lower_hex_byte(#[trigger] text[i])
}

/// The bytes that hexadecimal text of even length stands for, two digits a byte, the
/// high nibble first.
pub open spec fn hex_decoded(text: Seq<u8>) -> Seq<u8> {
    Seq::new(
        text.len() / 2,
        |i: int| (16 * hex_value(text[2 * i]).unwrap() + hex_value(text[2 * i + 1]).unwrap()) as u8,
    )
}

/// The lowercase hexadecimal text of `bytes`, two digits a byte, the high nibble first.
pub open spec fn hex_encoded(bytes: Seq<u8>) -> Seq<char> {
    Seq::new(
        2 * bytes.len(),
        |i: int|
            if i % 2 == 0 {
                hex_digit(bytes[i / 2] as int / 16)
            } else {
                hex_digit(bytes[i / 2] as int % 16)
            },
    )
}

/// ASCII text as the bytes that spell it.
pub open spec fn ascii_bytes(text: Seq<char>) -> Seq<u8> {
    Seq::new(text.len(), |i: int| text[i] as u8)
}

/// ASCII bytes as the text that they spell.
pub open spec fn ascii_chars(bytes: Seq<u8>) -> Seq<char> {
    Seq::new(bytes.len(), |i: int| bytes[i] as char)
}

/// `hex::FromHexError`, the error of the `hex` crate's decoders; nothing is known of
/// its inside.
#[verifier::external_type_specification]
#[verifier::external_body]
pub struct ExFromHexError(hex::FromHexError);

/// `hex::encode`: the text holds two lowercase digits for each byte, in order, the high
/// nibble first. Believed, not proved.
#[verifier::external_body]
pub(crate) fn hex_encode(bytes: &[u8]) -> (text: String)
    ensures
        text@ == hex_encoded(bytes@),
{
    hex::encode(bytes)
}

/// `hex::FromHex::from_hex` for an array of 32 bytes: it succeeds exactly on 64
/// hexadecimal digits of either case, and then gives the bytes that they stand for.
/// Believed, not proved.
#[verifier::external_body]
pub(crate) fn hex_decode_32(text: &[u8]) -> (r: Result<[u8; 32], hex::FromHexError>)
    ensures
        r is Ok <==> (text@.len() == 64 && is_hex_text(text@)),
        r matches Ok(bytes) ==> bytes@ == hex_decoded(text@),
{
    <[u8; 32] as hex::FromHex>::from_hex(text)
}

/// Encoding bytes gives lowercase hexadecimal text that decodes to the same bytes.
pub proof fn lemma_hex_decode_encode(bytes: Seq<u8>)
    ensures
        hex_encoded(bytes).len() == 2 * bytes.len(),
        is_lower_hex_text(ascii_bytes(hex_encoded(bytes))),
        is_hex_text(ascii_bytes(hex_encoded(bytes))),
        hex_decoded(ascii_bytes(hex_encoded(bytes))) == bytes,
        ascii_chars(ascii_bytes(hex_encoded(bytes))) == hex_encoded(bytes),
{
    let text = ascii_bytes(hex_encoded(bytes));
    assert forall|i: int| 0 <= i < text.len() implies is_lower_hex_byte(#[trigger] text[i])
        && hex_value(text[i]) is Some && text[i] as char == hex_encoded(bytes)[i] by {
        let b = bytes[i / 2];
        assert(0 <= b as int / 16 < 16 && 0 <= b as int % 16 < 16);
    }
    assert forall|k: int| 0 <= k < bytes.len() implies hex_decoded(text)[k] == bytes[k] by {
        let b = bytes[k];
        assert((2 * k) / 2 == k && (2 * k + 1) / 2 == k);
        assert((2 * k) % 2 == 0 && (2 * k + 1) % 2 == 1);
        assert(text[2 * k] == hex_digit(b as int / 16) as u8);
        assert(text[2 * k + 1] == hex_digit(b as int % 16) as u8);
        assert(16 * (b as int / 16) + b as int % 16 == b);
    }
    assert(hex_decoded(text) =~= bytes);
    assert(ascii_chars(text) =~= hex_encoded(bytes));
}

/// Lowercase hexadecimal text of even length is the encoding of the bytes that it
/// decodes to, and of no others.
pub proof fn lemma_hex_encode_decode(text: Seq<u8>)
    requires
        text.len() % 2 == 0,
        is_lower_hex_text(text),
    ensures
        hex_decoded(text).len() * 2 == text.len(),
        hex_encoded(hex_decoded(text)) == ascii_chars(text),
{
    let bytes = hex_decoded(text);
    assert forall|i: int| 0 <= i < text.len() implies hex_encoded(bytes)[i] == text[i] as char by {
        let k = i / 2;
        assert(is_lower_hex_byte(text[2 * k]) && is_lower_hex_byte(text[2 * k + 1]));
        let hi = hex_value(text[2 * k]).unwrap();
        let lo = hex_value(text[2 * k + 1]).unwrap();
        assert(0 <= hi < 16 && 0 <= lo < 16);
        assert(bytes[k] as int == 16 * hi + lo);
        assert((16 * hi + lo) / 16 == hi && (16 * hi + lo) % 16 == lo);
        if i % 2 == 0 {
            assert(i == 2 * k);
        } else {
            assert(i == 2 * k + 1);
        }
    }
    assert(hex_encoded(bytes) =~= ascii_chars(text));
}

/// The decimal digit that stands for `d`.
pub open spec fn decimal_digit(d: int) -> char {
    (48 + d) as char
}

/// `n` in decimal, without a sign or leading zeros.
pub open spec fn decimal_text(n: nat) -> Seq<char>
    decreases n,
{
    if n < 10 {
        seq![decimal_digit(n as int)]
    } else {
        decimal_text(n / 10).push(decimal_digit((n % 10) as int))
    }
}

/// One decimal digit as text.
fn digit_text(d: u64) -> (text: &'static str)
    requires
        d < 10,
    ensures
        text@ == seq![decimal_digit(d as int)],
{
    proof {
        reveal_strlit("0");
        reveal_strlit("1");
        reveal_strlit("2");
        reveal_strlit("3");
        reveal_strlit("4");
        reveal_strlit("5");
        reveal_strlit("6");
        reveal_strlit("7");
        reveal_strlit("8");
        reveal_strlit("9");
    }
    let text = if d == 0 {
        "0"
    } else if d == 1 {
        "1"
    } else if d == 2 {
        "2"
    } else if d == 3 {
        "3"
    } else if d == 4 {
        "4"
    } else if d == 5 {
        "5"
    } else if d == 6 {
        "6"
    } else if d == 7 {
        "7"
    } else if d == 8 {
        "8"
    } else {
        "9"
    };
    assert(text@ =~= seq![decimal_digit(d as int)]);
    text
}

/// Writes `n` in decimal.
pub fn u64_to_decimal(n: u64) -> (text: String)
    ensures
        text@ == decimal_text(n as nat),
    decreases n,
{
    if n < 10 {
        String::from_str(digit_text(n))
    } else {
        let mut text = u64_to_decimal(n / 10);
        text.append(digit_text(n % 10));
        assert(text@ =~= decimal_text(n as nat));
        text
    }
}

/// Every byte of `text` is a decimal digit, and there is at least one.
pub open spec fn is_decimal_text(text: Seq<u8>) -> bool {
    &&& text.len() > 0
    &&& forall|i: int| 0 <= i < text.len() ==> 48 <= #[trigger] text[i] <= 57
}

/// The number that a run of decimal digits writes.
pub open spec fn decimal_value(text: Seq<u8>) -> nat
    decreases text.len(),
{
    if text.len() == 0 {
        0
    } else {
        decimal_value(text.drop_last()) * 10 + (text.last() - 48) as nat
    }
}

/// The digits of a number written with an optional leading `+`.
pub open spec fn unsigned_digits(text: Seq<u8>) -> Seq<u8> {
    if text.len() > 0 && text[0] == 43 {
        text.subrange(1, text.len() as int)
    } else {
        text
    }
}

/// The number that `text` writes: an optional `+`, then one or more decimal digits whose
/// value fits 64 bits. Anything else writes no number.
pub open spec fn parsed_u64(text: Seq<u8>) -> Option<u64> {
    let digits = unsigned_digits(text);
    if is_decimal_text(digits) && decimal_value(digits) <= u64::MAX {
        Some(decimal_value(digits) as u64)
    } else {
        None
    }
}

/// A run of digits is worth at least as much as any of its prefixes.
proof fn lemma_decimal_value_prefix(text: Seq<u8>, k: int)
    requires
        0 <= k <= text.len(),
        forall|i: int| 0 <= i < text.len() ==> 48 <= #[trigger] text[i] <= 57,
    ensures
        decimal_value(text.take(k)) <= decimal_value(text),
    decreases text.len() - k,
{
    if k == text.len() {
        assert(text.take(k) =~= text);
    } else {
        let longer = text.take(k + 1);
        assert(longer.drop_last() =~= text.take(k));
        assert(longer.last() == text[k]);
        lemma_decimal_value_prefix(text, k + 1);
    }
}

/// The decimal text of a number is made of digits, and they write that number.
pub proof fn lemma_decimal_text_value(n: nat)
    ensures
        is_decimal_text(ascii_bytes(decimal_text(n))),
        decimal_value(ascii_bytes(decimal_text(n))) == n,
    decreases n,
{
    let text = ascii_bytes(decimal_text(n));
    if n < 10 {
        assert(text.len() == 1 && text[0] == 48 + n);
        assert(text.drop_last() =~= Seq::<u8>::empty());
        assert(decimal_value(text.drop_last()) == 0);
    } else {
        lemma_decimal_text_value(n / 10);
        let head = ascii_bytes(decimal_text(n / 10));
        assert(text.drop_last() =~= head);
        assert(text.last() == 48 + n % 10);
        assert forall|i: int| 0 <= i < text.len() implies 48 <= #[trigger] text[i] <= 57 by {
            if i < head.len() {
                assert(text[i] == head[i]);
            }
        }
    }
}

/// The decimal text of a number of at most 64 bits reads as that number.
pub proof fn lemma_parse_of_decimal(n: u64)
    ensures
        parsed_u64(ascii_bytes(decimal_text(n as nat))) == Some(n),
{
    lemma_decimal_text_value(n as nat);
    let text = ascii_bytes(decimal_text(n as nat));
    assert(text[0] != 43);
}

/// Reads an unsigned decimal number of at most 64 bits.
pub fn parse_u64(text: &[u8]) -> (r: Option<u64>)
    ensures
        r == parsed_u64(text@),
{
    let start: usize = if text.len() > 0 && text[0] == 43 {
        1
    } else {
        0
    };
    let ghost digits = unsigned_digits(text@);
    if start == text.len() {
        return None;
    }
    let mut value: u64 = 0;
    let mut i: usize = start;
    while i < text.len()
        invariant
            start <= i <= text.len(),
            digits == unsigned_digits(text@),
            digits.len() == text.len() - start,
            forall|j: int| 0 <= j < digits.len() ==> digits[j] == text@[j + start],
            forall|j: int| 0 <= j < i - start ==> 48 <= #[trigger] digits[j] <= 57,
            value == decimal_value(digits.take(i - start)),
        decreases text.len() - i,
    {
        let b: u8 = text[i];
        if b < 48 || b > 57 {
            assert(digits[i - start] == b);
            return None;
        }
        let d: u64 = (b - 48) as u64;
        let ghost longer = digits.take(i - start + 1);
        proof {
            assert(longer.drop_last() =~= digits.take(i - start));
            assert(longer.last() == b);
        }
        if value > (u64::MAX - d) / 10 {
            proof {
                assert(decimal_value(longer) > u64::MAX);
                if is_decimal_text(digits) {
                    lemma_decimal_value_prefix(digits, i - start + 1);
                }
            }
            return None;
        }
        value = value * 10 + d;
        i = i + 1;
    }
    proof {
        assert(digits.take(i - start) =~= digits);
    }
    Some(value)
}

} // verus!
