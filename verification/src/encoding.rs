//! Text renderings of bytes and numbers: lowercase hexadecimal and decimal.

use substreams::Hex;
use vstd::prelude::*;

verus! {

/// The lowercase hexadecimal digit of a value below sixteen.
pub open spec fn hex_digit(n: int) -> char {
    if n == 0 {
        '0'
    } else if n == 1 {
        '1'
    } else if n == 2 {
        '2'
    } else if n == 3 {
        '3'
    } else if n == 4 {
        '4'
    } else if n == 5 {
        '5'
    } else if n == 6 {
        '6'
    } else if n == 7 {
        '7'
    } else if n == 8 {
        '8'
    } else if n == 9 {
        '9'
    } else if n == 10 {
        'a'
    } else if n == 11 {
        'b'
    } else if n == 12 {
        'c'
    } else if n == 13 {
        'd'
    } else if n == 14 {
        'e'
    } else {
        'f'
    }
}

/// Lowercase hexadecimal text of a byte string: two digits per byte, the high
/// half of each byte first, no prefix.
pub open spec fn hex_chars(bytes: Seq<u8>) -> Seq<char> {
    Seq::new(
        2 * bytes.len(),
        |i: int|
            if i % 2 == 0 {
                hex_digit(bytes[i / 2] as int / 16)
            } else {
                hex_digit(bytes[i / 2] as int % 16)
            },
    )
}

/// Whether the character is a lowercase hexadecimal digit.
pub open spec fn is_hex_digit(c: char) -> bool {
    c == '0' || c == '1' || c == '2' || c == '3' || c == '4' || c == '5' || c == '6' || c == '7'
        || c == '8' || c == '9' || c == 'a' || c == 'b' || c == 'c' || c == 'd' || c == 'e' || c
        == 'f'
}

/// Whether the text holds lowercase hexadecimal digits only.
pub open spec fn is_hex_text(text: Seq<char>) -> bool {
    forall|i: int| 0 <= i < text.len() ==> is_hex_digit(#[trigger] text[i])
}

/// Hexadecimal text holds lowercase hexadecimal digits only, two for every
/// byte.
pub proof fn lemma_hex_chars_is_hex_text(bytes: Seq<u8>)
    ensures
        hex_chars(bytes).len() == 2 * bytes.len(),
        is_hex_text(hex_chars(bytes)),
{
    assert forall|i: int| 0 <= i < hex_chars(bytes).len() implies is_hex_digit(
        #[trigger] hex_chars(bytes)[i],
    ) by {
        let b = bytes[i / 2] as int;
        assert(is_hex_digit(hex_digit(b / 16)));
        assert(is_hex_digit(hex_digit(b % 16)));
    }
}

/// Calls `substreams::Hex::to_string`, which writes for every byte, in order,
/// its two lowercase hexadecimal digits.
#[verifier::external_body]
pub(crate) fn hex_encode(bytes: &[u8]) -> (text: String)
    ensures
        text@ == hex_chars(bytes@),
{
    Hex(bytes).to_string()
}

/// Hexadecimal text of `val`, of even length.
pub fn bytes_to_hex(val: &Vec<u8>) -> (text: String)
    ensures
        text@ == hex_chars(val@),
        text@.len() % 2 == 0,
{
    let v = hex_encode(val.as_slice());
    if v.as_str().unicode_len() % 2 == 0 {
        return v;
    }
    String::from_str("0").concat(v.as_str())
}

/// The decimal digit of a value below ten.
pub open spec fn decimal_digit(n: int) -> char {
    if n == 0 {
        '0'
    } else if n == 1 {
        '1'
    } else if n == 2 {
        '2'
    } else if n == 3 {
        '3'
    } else if n == 4 {
        '4'
    } else if n == 5 {
        '5'
    } else if n == 6 {
        '6'
    } else if n == 7 {
        '7'
    } else if n == 8 {
        '8'
    } else {
        '9'
    }
}

/// Decimal text of `n`: no sign, no leading zero, `"0"` for zero.
pub open spec fn decimal_chars(n: nat) -> Seq<char>
    decreases n,
{
    if n < 10 {
        seq![decimal_digit(n as int)]
    } else {
        decimal_chars(n / 10).push(decimal_digit((n % 10) as int))
    }
}

/// Decimal text of a signed number: a minus sign before the digits of a
/// negative one.
pub open spec fn signed_decimal_chars(i: int) -> Seq<char> {
    if i < 0 {
        seq!['-'] + decimal_chars((-i) as nat)
    } else {
        decimal_chars(i as nat)
    }
}

/// The one-character text of a decimal digit.
fn digit_str(d: u8) -> (text: &'static str)
    requires
        d < 10,
    ensures
        text@ == seq![decimal_digit(d as int)],
{
    proof {
        reveal_strlit("0");
        reveal_strlit("1");
        reveal_strlit("2");
        reveal_strlit("3");
        reveal_strlit("4");
        reveal_strlit("5");
        reveal_strlit("6");
        reveal_strlit("7");
        reveal_strlit("8");
        reveal_strlit("9");
    }
    let text = if d == 0 {
        "0"
    } else if d == 1 {
        "1"
    } else if d == 2 {
        "2"
    } else if d == 3 {
        "3"
    } else if d == 4 {
        "4"
    } else if d == 5 {
        "5"
    } else if d == 6 {
        "6"
    } else if d == 7 {
        "7"
    } else if d == 8 {
        "8"
    } else {
        "9"
    };
    assert(text@ =~= seq![decimal_digit(d as int)]);
    text
}

/// Decimal text of `n`.
pub fn u64_to_decimal(n: u64) -> (text: String)
    ensures
        text@ == decimal_chars(n as nat),
    decreases n,
{
    if n < 10 {
        String::from_str(digit_str(n as u8))
    } else {
        let mut text = u64_to_decimal(n / 10);
        let ghost before = text@;
        text.append(digit_str((n % 10) as u8));
        assert(text@ =~= before.push(decimal_digit((n % 10) as int)));
        text
    }
}

/// Decimal text of `v`, with a minus sign where it is negative.
pub fn i64_to_decimal(v: i64) -> (text: String)
    ensures
        text@ == signed_decimal_chars(v as int),
{
    if v >= 0 {
        u64_to_decimal(v as u64)
    } else {
        let below: u64 = (-(v + 1)) as u64;
        let digits = u64_to_decimal(below + 1);
        proof {
            reveal_strlit("-");
        }
        let mut text = String::from_str("-");
        assert(text@ =~= seq!['-']);
        text.append(digits.as_str());
        text
    }
}

} // verus!
