//! Conversions between raw bytes and the text shown to or typed by the user.

use crate::text::{chars_of, string_of};
use vstd::prelude::*;

verus! {

/// Characters with the Unicode property `White_Space`.
pub open spec fn is_whitespace(c: char) -> bool {
    let u = c as u32;
    ||| 0x09 <= u <= 0x0D
    ||| u == 0x20
    ||| u == 0x85
    ||| u == 0xA0
    ||| u == 0x1680
    ||| 0x2000 <= u <= 0x200A
    ||| u == 0x2028
    ||| u == 0x2029
    ||| u == 0x202F
    ||| u == 0x205F
    ||| u == 0x3000
}

/// Value of a hexadecimal digit, in either case.
pub open spec fn hex_digit_value(c: char) -> Option<u8> {
    let u = c as u32;
    if 0x30 <= u <= 0x39 {
        Some((u - 0x30) as u8)
    } else if 0x41 <= u <= 0x46 {
        Some((u - 0x41 + 10) as u8)
    } else if 0x61 <= u <= 0x66 {
        Some((u - 0x61 + 10) as u8)
    } else {
        None
    }
}

/// The upper-case hexadecimal digit for a value below 16.
pub open spec fn hex_digit_char(v: u8) -> char {
    if v < 10 {
        (0x30 + v) as char
    } else {
        (0x41 + v - 10) as char
    }
}

/// The characters of `s` that are decoded: whitespace is ignored wherever
/// it stands.
pub open spec fn hex_payload(s: Seq<char>) -> Seq<char> {
    s.filter(|c: char| !is_whitespace(c))
}

/// Every character of `s` is a hexadecimal digit.
pub open spec fn all_hex_digits(s: Seq<char>) -> bool {
    forall|i: int| 0 <= i < s.len() ==> (#[trigger] hex_digit_value(s[i])) is Some
}

/// The byte written by the two digits `high` and `low`.
pub open spec fn byte_of_digits(high: char, low: char) -> u8 {
    (hex_digit_value(high).unwrap() * 16 + hex_digit_value(low).unwrap()) as u8
}

/// The bytes written by an even number of hexadecimal digits, two digits per
/// byte.
pub open spec fn bytes_of_digits(digits: Seq<char>) -> Seq<u8> {
    Seq::new(digits.len() / 2, |i: int| byte_of_digits(digits[2 * i], digits[2 * i + 1]))
}

/// Why a text is not a hexadecimal byte string.
pub enum HexFault {
    /// The number of characters to decode is odd.
    OddLength,
    /// A character to decode is no hexadecimal digit.
    InvalidDigit,
}

/// What `hex_to_bytes` makes of `s`: the decoded bytes, or the fault found.
/// An odd length is reported before an invalid digit.
pub open spec fn hex_decoding(s: Seq<char>) -> Result<Seq<u8>, HexFault> {
    let payload = hex_payload(s);
    if payload.len() % 2 != 0 {
        Err(HexFault::OddLength)
    } else if !all_hex_digits(payload) {
        Err(HexFault::InvalidDigit)
    } else {
        Ok(bytes_of_digits(payload))
    }
}

/// The message that reports a fault.
pub open spec fn fault_message(fault: HexFault) -> Seq<char> {
    match fault {
        HexFault::OddLength => "Hex string must have even length"@,
        HexFault::InvalidDigit => "Invalid hex character"@,
    }
}

/// The two upper-case digits of a byte.
pub open spec fn hex_pair(b: u8) -> Seq<char> {
    seq![hex_digit_char(b / 16), hex_digit_char(b % 16)]
}

/// Bytes as upper-case two-digit groups separated by single spaces.
pub open spec fn hex_text(bytes: Seq<u8>) -> Seq<char>
    decreases bytes.len(),
{
    if bytes.len() == 0 {
        seq![]
    } else if bytes.len() == 1 {
        hex_pair(bytes[0])
    } else {
        hex_text(bytes.drop_last()) + seq![' '] + hex_pair(bytes.last())
    }
}

/// How one byte is shown as text: a printable ASCII character stands for
/// itself, any other byte is written `\xNN` with upper-case digits.
pub open spec fn escaped_byte(b: u8) -> Seq<char> {
    if 32 <= b < 127 {
        seq![b as char]
    } else {
        seq!['\\', 'x'] + hex_pair(b)
    }
}

/// Bytes as text, each byte shown as `escaped_byte` has it.
pub open spec fn escaped_text(bytes: Seq<u8>) -> Seq<char>
    decreases bytes.len(),
{
    if bytes.len() == 0 {
        seq![]
    } else {
        escaped_text(bytes.drop_last()) + escaped_byte(bytes.last())
    }
}

fn is_whitespace_char(c: char) -> (r: bool)
    ensures
        r == is_whitespace(c),
{
    let u: u32 = c as u32;
    (0x09 <= u && u <= 0x0D) || u == 0x20 || u == 0x85 || u == 0xA0 || u == 0x1680 || (0x2000 <= u
        && u <= 0x200A) || u == 0x2028 || u == 0x2029 || u == 0x202F || u == 0x205F || u == 0x3000
}

fn digit_value(c: char) -> (r: Option<u8>)
    ensures
        r == hex_digit_value(c),
        r is Some ==> r.unwrap() < 16,
{
    let u: u32 = c as u32;
    if 0x30 <= u && u <= 0x39 {
        Some((u - 0x30) as u8)
    } else if 0x41 <= u && u <= 0x46 {
        Some((u - 0x41 + 10) as u8)
    } else if 0x61 <= u && u <= 0x66 {
        Some((u - 0x61 + 10) as u8)
    } else {
        None
    }
}

fn digit_char(v: u8) -> (c: char)
    requires
        v < 16,
    ensures
        c == hex_digit_char(v),
{
    if v < 10 {
        (0x30 + v) as char
    } else {
        (0x41 + v - 10) as char
    }
}

/// Decodes a hexadecimal byte string.
///
/// Whitespace is ignored. What is left must be an even number of
/// hexadecimal digits, two per byte.
pub fn hex_to_bytes(hex_str: &str) -> (r: Result<Vec<u8>, String>)
    ensures
        match hex_decoding(hex_str@) {
            Ok(bytes) => r is Ok && r.unwrap()@ == bytes,
            Err(fault) => r is Err && r.unwrap_err()@ == fault_message(fault),
        },
{
    let chars = chars_of(hex_str);
    let n = chars.len();

    let mut digits: Vec<char> = Vec::new();
    let mut i: usize = 0;
    assert(chars@.take(0) =~= Seq::<char>::empty());
    proof {
        reveal(Seq::filter);
    }
    while i < n
        invariant
            i <= n,
            n == chars@.len(),
            digits@ == hex_payload(chars@.take(i as int)),
        decreases n - i,
    {
        let c = chars[i];
        proof {
            let before = chars@.take(i as int);
            let after = chars@.take(i + 1);
            assert(after =~= before.push(c));
            assert(after.drop_last() =~= before);
            reveal(Seq::filter);
        }
        if !is_whitespace_char(c) {
            digits.push(c);
        }
        i += 1;
    }
    assert(chars@.take(n as int) =~= chars@);

    if digits.len() % 2 != 0 {
        return Err(String::from_str("Hex string must have even length"));
    }
    let count = digits.len() / 2;
    let mut bytes: Vec<u8> = Vec::new();
    let mut k: usize = 0;
    while k < count
        invariant
            k <= count,
            2 * count == digits@.len(),
            digits@ == hex_payload(hex_str@),
            bytes@.len() == k,
            forall|j: int| 0 <= j < 2 * k ==> (#[trigger] hex_digit_value(digits@[j])) is Some,
            forall|j: int|
                0 <= j < k ==> #[trigger] bytes@[j] == byte_of_digits(
                    digits@[2 * j],
                    digits@[2 * j + 1],
                ),
        decreases count - k,
    {
        let high = digit_value(digits[2 * k]);
        let low = digit_value(digits[2 * k + 1]);
        match (high, low) {
            (Some(h), Some(l)) => {
                bytes.push(h * 16 + l);
            },
            _ => {
                assert(hex_digit_value(digits@[2 * k]) is None || hex_digit_value(
                    digits@[2 * k + 1],
                ) is None);
                return Err(String::from_str("Invalid hex character"));
            },
        }
        k += 1;
    }
    assert(bytes@ =~= bytes_of_digits(digits@));
    Ok(bytes)
}

/// Writes bytes as upper-case two-digit groups separated by single spaces.
pub fn bytes_to_hex(bytes: &[u8]) -> (r: String)
    ensures
        r@ == hex_text(bytes@),
{
    let mut chars: Vec<char> = Vec::new();
    let mut i: usize = 0;
    while i < bytes.len()
        invariant
            i <= bytes@.len(),
            chars@ == hex_text(bytes@.take(i as int)),
        decreases bytes@.len() - i,
    {
        let b = bytes[i];
        proof {
            let before = bytes@.take(i as int);
            let after = bytes@.take(i + 1);
            assert(after.drop_last() =~= before);
            assert(after.last() == b);
            if i == 0 {
                assert(after[0] == b);
            }
        }
        if i > 0 {
            chars.push(' ');
        }
        chars.push(digit_char(b / 16));
        chars.push(digit_char(b % 16));
        proof {
            let before = hex_text(bytes@.take(i as int));
            if i == 0 {
                assert(chars@ =~= hex_pair(b));
            } else {
                assert(chars@ =~= before + seq![' '] + hex_pair(b));
            }
        }
        i += 1;
    }
    assert(bytes@.take(bytes@.len() as int) =~= bytes@);
    string_of(chars.as_slice())
}

/// Writes bytes as text: printable ASCII as it is, every other byte as
/// `\xNN`.
pub fn bytes_to_string(bytes: &[u8]) -> (r: String)
    ensures
        r@ == escaped_text(bytes@),
{
    let mut chars: Vec<char> = Vec::new();
    let mut i: usize = 0;
    while i < bytes.len()
        invariant
            i <= bytes@.len(),
            chars@ == escaped_text(bytes@.take(i as int)),
        decreases bytes@.len() - i,
    {
        let b = bytes[i];
        proof {
            let before = bytes@.take(i as int);
            let after = bytes@.take(i + 1);
            assert(after.drop_last() =~= before);
            assert(after.last() == b);
        }
        let ghost prefix = chars@;
        if b >= 32 && b < 127 {
            chars.push(b as char);
            assert(chars@ =~= prefix + escaped_byte(b));
        } else {
            chars.push('\\');
            chars.push('x');
            chars.push(digit_char(b / 16));
            chars.push(digit_char(b % 16));
            assert(chars@ =~= prefix + escaped_byte(b));
        }
        i += 1;
    }
    assert(bytes@.take(bytes@.len() as int) =~= bytes@);
    string_of(chars.as_slice())
}

/// The digits of `bytes`, two per byte, with nothing between them.
pub open spec fn hex_digits(bytes: Seq<u8>) -> Seq<char>
    decreases bytes.len(),
{
    if bytes.len() == 0 {
        seq![]
    } else {
        hex_digits(bytes.drop_last()) + hex_pair(bytes.last())
    }
}

proof fn lemma_digit_char_value(v: u8)
    requires
        v < 16,
    ensures
        hex_digit_value(hex_digit_char(v)) == Some(v),
        !is_whitespace(hex_digit_char(v)),
{
}

proof fn lemma_hex_pair(b: u8)
    ensures
        hex_pair(b).len() == 2,
        hex_digit_value(hex_pair(b)[0]) == Some(b / 16),
        hex_digit_value(hex_pair(b)[1]) == Some(b % 16),
        byte_of_digits(hex_pair(b)[0], hex_pair(b)[1]) == b,
        hex_payload(hex_pair(b)) == hex_pair(b),
{
    lemma_digit_char_value(b / 16);
    lemma_digit_char_value(b % 16);
    let pair = hex_pair(b);
    assert(hex_payload(pair) == pair) by {
        reveal(Seq::filter);
        let one = pair.drop_last();
        let none = one.drop_last();
        assert(none =~= Seq::<char>::empty());
        assert(hex_payload(none) =~= none);
        assert(hex_payload(one) =~= seq![pair[0]]);
        assert(hex_payload(pair) =~= pair);
    }
}

proof fn lemma_filter_space()
    ensures
        hex_payload(seq![' ']) == Seq::<char>::empty(),
{
    reveal(Seq::filter);
    let one = seq![' '];
    assert(one.drop_last() =~= Seq::<char>::empty());
    assert(one.last() == ' ');
    assert(hex_payload(one.drop_last()) =~= Seq::<char>::empty());
}

proof fn lemma_hex_text_payload(bytes: Seq<u8>)
    ensures
        hex_payload(hex_text(bytes)) == hex_digits(bytes),
    decreases bytes.len(),
{
    if bytes.len() == 0 {
        reveal(Seq::filter);
        assert(hex_text(bytes) =~= Seq::<char>::empty());
    } else if bytes.len() == 1 {
        lemma_hex_pair(bytes[0]);
        assert(bytes.drop_last().len() == 0);
        assert(hex_digits(bytes.drop_last()) =~= Seq::<char>::empty());
        assert(hex_digits(bytes) =~= hex_pair(bytes[0]));
    } else {
        let front = hex_text(bytes.drop_last());
        let pair = hex_pair(bytes.last());
        let pred = |c: char| !is_whitespace(c);
        lemma_hex_text_payload(bytes.drop_last());
        lemma_hex_pair(bytes.last());
        lemma_filter_space();
        Seq::filter_distributes_over_add(front + seq![' '], pair, pred);
        Seq::filter_distributes_over_add(front, seq![' '], pred);
        assert(front.filter(pred) + Seq::<char>::empty() =~= front.filter(pred));
    }
}

proof fn lemma_hex_digits_len(bytes: Seq<u8>)
    ensures
        hex_digits(bytes).len() == 2 * bytes.len(),
    decreases bytes.len(),
{
    if bytes.len() > 0 {
        lemma_hex_digits_len(bytes.drop_last());
    }
}

proof fn lemma_hex_digits_at(bytes: Seq<u8>, j: int)
    requires
        0 <= j < bytes.len(),
    ensures
        hex_digits(bytes).len() == 2 * bytes.len(),
        hex_digits(bytes)[2 * j] == hex_pair(bytes[j])[0],
        hex_digits(bytes)[2 * j + 1] == hex_pair(bytes[j])[1],
    decreases bytes.len(),
{
    let front = bytes.drop_last();
    lemma_hex_digits_len(bytes);
    lemma_hex_digits_len(front);
    if j < front.len() {
        lemma_hex_digits_at(front, j);
        assert(front[j] == bytes[j]);
    }
}

proof fn lemma_hex_digits_decode(bytes: Seq<u8>)
    ensures
        hex_digits(bytes).len() == 2 * bytes.len(),
        all_hex_digits(hex_digits(bytes)),
        bytes_of_digits(hex_digits(bytes)) == bytes,
{
    let digits = hex_digits(bytes);
    lemma_hex_digits_len(bytes);
    assert forall|i: int| 0 <= i < digits.len() implies (#[trigger] hex_digit_value(
        digits[i],
    )) is Some by {
        let j = i / 2;
        lemma_hex_digits_at(bytes, j);
        lemma_hex_pair(bytes[j]);
        if i % 2 == 0 {
            assert(i == 2 * j);
        } else {
            assert(i == 2 * j + 1);
        }
    }
    let decoded = bytes_of_digits(digits);
    assert(decoded.len() == bytes.len());
    assert forall|j: int| 0 <= j < bytes.len() implies decoded[j] == bytes[j] by {
        lemma_hex_digits_at(bytes, j);
        lemma_hex_pair(bytes[j]);
    }
    assert(decoded =~= bytes);
}

/// Decoding the hexadecimal text of any byte sequence gives the bytes back.
pub proof fn lemma_hex_round_trip(bytes: Seq<u8>)
    ensures
        hex_decoding(hex_text(bytes)) == Ok::<Seq<u8>, HexFault>(bytes),
{
    lemma_hex_text_payload(bytes);
    lemma_hex_digits_decode(bytes);
}

} // verus!
