//! Lowercase hexadecimal text: of byte strings, and of fixed-width numbers.

use vstd::prelude::*;
use vstd::string::*;
use vstd::utf8::*;

verus! {

/// The lowercase hexadecimal digit that stands for `d`, for `d` below sixteen.
pub open spec fn digit_char(d: int) -> char {
    if d == 0 {
        '0'
    } else if d == 1 {
        '1'
    } else if d == 2 {
        '2'
    } else if d == 3 {
        '3'
    } else if d == 4 {
        '4'
    } else if d == 5 {
        '5'
    } else if d == 6 {
        '6'
    } else if d == 7 {
        '7'
    } else if d == 8 {
        '8'
    } else if d == 9 {
        '9'
    } else if d == 10 {
        'a'
    } else if d == 11 {
        'b'
    } else if d == 12 {
        'c'
    } else if d == 13 {
        'd'
    } else if d == 14 {
        'e'
    } else {
        'f'
    }
}

/// Whether `c` is one of the sixteen lowercase hexadecimal digits.
pub open spec fn is_digit_char(c: char) -> bool {
    ('0' <= c && c <= '9') || ('a' <= c && c <= 'f')
}

/// The value of a lowercase hexadecimal digit.
pub open spec fn digit_value(c: char) -> int {
    if '0' <= c && c <= '9' {
        c as int - '0' as int
    } else {
        c as int - 'a' as int + 10
    }
}

/// The one-character text of a digit.
fn digit_text(d: u8) -> (text: &'static str)
    ensures
        text@ == seq![digit_char(d as int)],
{
    proof {
        reveal_strlit("0");
        reveal_strlit("1");
        reveal_strlit("2");
        reveal_strlit("3");
        reveal_strlit("4");
        reveal_strlit("5");
        reveal_strlit("6");
        reveal_strlit("7");
        reveal_strlit("8");
        reveal_strlit("9");
        reveal_strlit("a");
        reveal_strlit("b");
        reveal_strlit("c");
        reveal_strlit("d");
        reveal_strlit("e");
        reveal_strlit("f");
    }
    let text = match d {
        0 => "0",
        1 => "1",
        2 => "2",
        3 => "3",
        4 => "4",
        5 => "5",
        6 => "6",
        7 => "7",
        8 => "8",
        9 => "9",
        10 => "a",
        11 => "b",
        12 => "c",
        13 => "d",
        14 => "e",
        _ => "f",
    };
    assert(text@ =~= seq![digit_char(d as int)]);
    text
}

/// Whether every character of `s` is a lowercase hexadecimal digit.
pub open spec fn is_hex_text(s: Seq<char>) -> bool {
    forall|i: int| 0 <= i < s.len() ==> is_digit_char(#[trigger] s[i])
}

/// The hexadecimal text of a byte string: two digits for each byte, the high
/// half first.
pub open spec fn hex_text(bytes: Seq<u8>) -> Seq<char> {
    Seq::new(
        2 * bytes.len(),
        |i: int|
            if i % 2 == 0 {
                digit_char(bytes[i / 2] as int / 16)
            } else {
                digit_char(bytes[i / 2] as int % 16)
            },
    )
}

/// Sixteen to the power `n`.
pub open spec fn sixteen_pow(n: nat) -> nat
    decreases n,
{
    if n == 0 {
        1
    } else {
        16 * sixteen_pow((n - 1) as nat)
    }
}

/// The last `width` hexadecimal digits of `value`, the most significant first.
pub open spec fn hex_digits(value: nat, width: nat) -> Seq<char>
    decreases width,
{
    if width == 0 {
        Seq::empty()
    } else {
        hex_digits(value / 16, (width - 1) as nat).push(digit_char((value % 16) as int))
    }
}

/// The number that a hexadecimal text denotes, the most significant digit
/// first.
pub open spec fn hex_value(s: Seq<char>) -> nat
    decreases s.len(),
{
    if s.len() == 0 {
        0
    } else {
        hex_value(s.drop_last()) * 16 + digit_value(s.last()) as nat
    }
}

/// Every digit stands for its own value.
pub proof fn digit_round_trip(d: int)
    requires
        0 <= d < 16,
    ensures
        is_digit_char(digit_char(d)),
        digit_value(digit_char(d)) == d,
{
}

/// Every hexadecimal digit is the digit of its value.
pub proof fn digit_of_value(c: char)
    requires
        is_digit_char(c),
    ensures
        0 <= digit_value(c) < 16,
        digit_char(digit_value(c)) == c,
{
}

/// The text of a byte string has two hexadecimal digits for each byte.
pub proof fn hex_text_is_hex(bytes: Seq<u8>)
    ensures
        hex_text(bytes).len() == 2 * bytes.len(),
        is_hex_text(hex_text(bytes)),
{
    assert forall|i: int| 0 <= i < hex_text(bytes).len() implies is_digit_char(
        #[trigger] hex_text(bytes)[i],
    ) by {
        let b = bytes[i / 2] as int;
        digit_round_trip(b / 16);
        digit_round_trip(b % 16);
    }
}

/// A number written with `width` digits has `width` hexadecimal digits.
pub proof fn hex_digits_are_hex(value: nat, width: nat)
    ensures
        hex_digits(value, width).len() == width,
        is_hex_text(hex_digits(value, width)),
    decreases width,
{
    if width > 0 {
        hex_digits_are_hex(value / 16, (width - 1) as nat);
        digit_round_trip((value % 16) as int);
    }
}

/// Reading back the digits of a number that fits in `width` digits gives the
/// number.
pub proof fn hex_value_of_digits(value: nat, width: nat)
    requires
        value < sixteen_pow(width),
    ensures
        hex_value(hex_digits(value, width)) == value,
    decreases width,
{
    if width > 0 {
        let rest = hex_digits(value / 16, (width - 1) as nat);
        let last = digit_char((value % 16) as int);
        hex_value_of_digits(value / 16, (width - 1) as nat);
        digit_round_trip((value % 16) as int);
        assert(rest.push(last).drop_last() =~= rest);
        assert(rest.push(last).last() == last);
    }
}

/// Writing the value of a hexadecimal text with as many digits gives the
/// text, and the value fits in that many digits.
pub proof fn hex_digits_of_value(s: Seq<char>)
    requires
        is_hex_text(s),
    ensures
        hex_value(s) < sixteen_pow(s.len()),
        hex_digits(hex_value(s), s.len()) == s,
    decreases s.len(),
{
    if s.len() > 0 {
        let front = s.drop_last();
        hex_digits_of_value(front);
        digit_of_value(s.last());
        let v = hex_value(s);
        assert(v / 16 == hex_value(front));
        assert((v % 16) as int == digit_value(s.last()));
        assert(front.push(s.last()) =~= s);
    }
}

/// Two numbers that fit in `width` digits and are written alike are equal.
pub proof fn hex_digits_injective(a: nat, b: nat, width: nat)
    requires
        a < sixteen_pow(width),
        b < sixteen_pow(width),
        hex_digits(a, width) == hex_digits(b, width),
    ensures
        a == b,
{
    hex_value_of_digits(a, width);
    hex_value_of_digits(b, width);
}

/// Sixteen to a power grows with the power.
pub proof fn sixteen_pow_grows(a: nat, b: nat)
    requires
        a <= b,
    ensures
        sixteen_pow(a) <= sixteen_pow(b),
        sixteen_pow(a) >= 1,
    decreases b,
{
    if a < b {
        sixteen_pow_grows(a, (b - 1) as nat);
    } else if a > 0 {
        sixteen_pow_grows((a - 1) as nat, (a - 1) as nat);
    }
}

/// Thirty-two hexadecimal digits are the range of `u128`, sixteen that of `u64`.
pub proof fn sixteen_pow_of_widths()
    ensures
        sixteen_pow(16) == 0x1_0000_0000_0000_0000,
        sixteen_pow(32) == 0x1_0000_0000_0000_0000_0000_0000_0000_0000,
{
    reveal_with_fuel(sixteen_pow, 17);
    assert(sixteen_pow(16) == 0x1_0000_0000_0000_0000);
    assert(sixteen_pow(32) == 0x1_0000_0000_0000_0000 * sixteen_pow(16));
}

/// `hex::encode`: the text of `bytes` in lowercase hexadecimal digits, two for
/// each byte, the high half of the byte first.
#[verifier::external_body]
pub(crate) fn hex_encode(bytes: &[u8]) -> (text: String)
    ensures
        text@ == hex_text(bytes@),
{
    hex::encode(bytes)
}

fn append_hex(out: &mut String, value: u128, width: u8)
    ensures
        final(out)@ == old(out)@ + hex_digits(value as nat, width as nat),
    decreases width,
{
    if width > 0 {
        append_hex(out, value / 16, width - 1);
        let d: u8 = (value % 16) as u8;
        out.append(digit_text(d));
        assert(final(out)@ =~= old(out)@ + hex_digits(value as nat, width as nat));
    } else {
        assert(final(out)@ =~= old(out)@ + hex_digits(value as nat, width as nat));
    }
}

/// The last `width` hexadecimal digits of `value` as text.
pub fn hex_number(value: u128, width: u8) -> (text: String)
    ensures
        text@ == hex_digits(value as nat, width as nat),
{
    let mut text = String::new();
    append_hex(&mut text, value, width);
    assert(text@ =~= hex_digits(value as nat, width as nat));
    text
}

/// The value of one hexadecimal digit given as an ASCII byte.
fn digit_of_byte(b: u8) -> (d: Option<u8>)
    ensures
        match d {
            Some(v) => is_digit_char(b as char) && v as int == digit_value(b as char),
            None => !is_digit_char(b as char),
        },
{
    if 48 <= b && b <= 57 {
        Some(b - 48)
    } else if 97 <= b && b <= 102 {
        Some(b - 87)
    } else {
        None
    }
}

/// Whether `text` consists of lowercase hexadecimal digits only.
pub fn is_hex(text: &str) -> (ok: bool)
    ensures
        ok == is_hex_text(text@),
{
    if !text.is_ascii() {
        proof {
            if is_hex_text(text@) {
                assert forall|i: int| 0 <= i < text@.len() implies '\0' <= #[trigger] text@[i]
                    <= '\u{7f}' by {
                    assert(is_digit_char(text@[i]));
                }
            }
        }
        return false;
    }
    let bytes = text.as_bytes();
    proof {
        is_ascii_spec_bytes(text);
    }
    let n = bytes.len();
    let mut i: usize = 0;
    while i < n
        invariant
            i <= n,
            n == text@.len(),
            bytes@.len() == n,
            is_ascii_chars(text@),
            forall|k: int| 0 <= k < n ==> bytes@[k] == text@[k] as u8,
            forall|k: int| 0 <= k < i ==> is_digit_char(#[trigger] text@[k]),
        decreases n - i,
    {
        let b = bytes[i];
        let ghost c = text@[i as int];
        assert(b as char == c) by {
            assert('\0' <= c <= '\u{7f}');
        }
        if digit_of_byte(b).is_none() {
            assert(!is_digit_char(text@[i as int]));
            return false;
        }
        i = i + 1;
    }
    true
}

/// Reads a number written in at most thirty-two lowercase hexadecimal digits.
pub fn parse_hex(text: &str) -> (value: Option<u128>)
    ensures
        match value {
            Some(v) => is_hex_text(text@) && text@.len() <= 32 && v as nat == hex_value(text@),
            None => !(is_hex_text(text@) && text@.len() <= 32),
        },
{
    if !text.is_ascii() {
        proof {
            if is_hex_text(text@) {
                assert forall|i: int| 0 <= i < text@.len() implies '\0' <= #[trigger] text@[i]
                    <= '\u{7f}' by {
                    assert(is_digit_char(text@[i]));
                }
            }
        }
        return None;
    }
    let bytes = text.as_bytes();
    proof {
        is_ascii_spec_bytes(text);
    }
    let n = bytes.len();
    if n > 32 {
        return None;
    }
    let mut acc: u128 = 0;
    let mut i: usize = 0;
    while i < n
        invariant
            i <= n <= 32,
            n == text@.len(),
            bytes@.len() == n,
            is_ascii_chars(text@),
            forall|k: int| 0 <= k < n ==> bytes@[k] == text@[k] as u8,
            is_hex_text(text@.subrange(0, i as int)),
            acc as nat == hex_value(text@.subrange(0, i as int)),
            acc < sixteen_pow(i as nat),
        decreases n - i,
    {
        let b = bytes[i];
        let ghost c = text@[i as int];
        assert(b as char == c) by {
            assert('\0' <= c <= '\u{7f}');
        }
        let ghost next = text@.subrange(0, i + 1);
        assert(next.drop_last() =~= text@.subrange(0, i as int));
        assert(next.last() == c);
        match digit_of_byte(b) {
            None => {
                assert(!is_hex_text(text@)) by {
                    if is_hex_text(text@) {
                        assert(is_digit_char(text@[i as int]));
                    }
                }
                return None;
            },
            Some(d) => {
                proof {
                    sixteen_pow_grows((i + 1) as nat, 32);
                    sixteen_pow_of_widths();
                    assert(is_hex_text(next)) by {
                        assert forall|k: int| 0 <= k < next.len() implies is_digit_char(
                            #[trigger] next[k],
                        ) by {
                            if k < i {
                                assert(text@.subrange(0, i as int)[k] == next[k]);
                            }
                        }
                    }
                }
                acc = acc * 16 + d as u128;
                i = i + 1;
            },
        }
    }
    assert(text@.subrange(0, n as int) =~= text@);
    Some(acc)
}

} // verus!
