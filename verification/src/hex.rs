//! Hexadecimal text and the integers and bytes it stands for.

use crate::text::{ascii_bytes, spells};
use vstd::prelude::*;
use vstd::utf8::*;

verus! {

/// Whether `c` is one of `0-9`, `a-f`, `A-F`.
pub open spec fn is_hex_digit(c: char) -> bool {
    ('0' <= c <= '9') || ('a' <= c <= 'f') || ('A' <= c <= 'F')
}

/// The number a hexadecimal digit stands for.
pub open spec fn hex_digit_value(c: char) -> int {
    if '0' <= c <= '9' {
        c as int - '0' as int
    } else if 'a' <= c <= 'f' {
        c as int - 'a' as int + 10
    } else {
        c as int - 'A' as int + 10
    }
}

/// Whether every character of `s` is a hexadecimal digit.
pub open spec fn all_hex_digits(s: Seq<char>) -> bool {
    forall|i: int| 0 <= i < s.len() ==> is_hex_digit(#[trigger] s[i])
}

/// The number that a run of hexadecimal digits stands for, most significant
/// digit first. The empty run stands for zero.
pub open spec fn hex_digits_value(s: Seq<char>) -> int
    decreases s.len(),
{
    if s.len() == 0 {
        0
    } else {
        16 * hex_digits_value(s.drop_last()) + hex_digit_value(s.last())
    }
}

/// The number that a hexadecimal quantity stands for. A quantity is `0x`
/// followed by at least one hexadecimal digit, in either case, and nothing
/// else: no sign, no second prefix, no blank. `None` for any other text.
pub open spec fn hex_quantity(s: Seq<char>) -> Option<int> {
    if s.len() >= 3 && s[0] == '0' && s[1] == 'x' && all_hex_digits(s.skip(2)) {
        Some(hex_digits_value(s.skip(2)))
    } else {
        None
    }
}

/// The signed 64-bit integer that a hexadecimal quantity stands for, where
/// the text is a quantity and the number fits.
pub open spec fn hex_i64(s: Seq<char>) -> Option<i64> {
    match hex_quantity(s) {
        Some(v) => if v <= i64::MAX {
            Some(v as i64)
        } else {
            None
        },
        None => None,
    }
}

/// The unsigned 64-bit integer that a hexadecimal quantity stands for,
/// where the text is a quantity and the number fits.
pub open spec fn hex_u64(s: Seq<char>) -> Option<u64> {
    match hex_quantity(s) {
        Some(v) => if v <= u64::MAX {
            Some(v as u64)
        } else {
            None
        },
        None => None,
    }
}

/// The bytes that hexadecimal text stands for: one `0x` or `0X` prefix is
/// dropped if there is one, and what is left must be an even number of
/// digits, two to the byte, the high half first. `None` for any other text.
pub open spec fn hex_bytes(s: Seq<char>) -> Option<Seq<u8>> {
    let digits = if s.len() >= 2 && s[0] == '0' && (s[1] == 'x' || s[1] == 'X') {
        s.skip(2)
    } else {
        s
    };
    if digits.len() % 2 == 0 && all_hex_digits(digits) {
        Some(
            Seq::new(
                digits.len() / 2,
                |i: int|
                    (16 * hex_digit_value(digits[2 * i]) + hex_digit_value(digits[2 * i + 1])) as u8,
            ),
        )
    } else {
        None
    }
}

/// The lower-case hexadecimal digit for a number below 16.
pub open spec fn lower_hex_digit(d: int) -> char {
    if d < 10 {
        ('0' as int + d) as char
    } else {
        ('a' as int + d - 10) as char
    }
}

/// The hexadecimal text of a number: lower-case digits, most significant
/// first, none of them a leading zero, and `0` for zero.
pub open spec fn hex_text(n: nat) -> Seq<char>
    decreases n,
{
    if n < 16 {
        seq![lower_hex_digit(n as int)]
    } else {
        hex_text(n / 16).push(lower_hex_digit((n % 16) as int))
    }
}

/// A run of hexadecimal digits stands for no less than any of its prefixes.
pub proof fn lemma_hex_digits_value_grows(s: Seq<char>, k: int)
    requires
        all_hex_digits(s),
        0 <= k <= s.len(),
    ensures
        0 <= hex_digits_value(s.take(k)) <= hex_digits_value(s),
    decreases s.len() - k,
{
    if k == s.len() {
        assert(s.take(k) =~= s);
        lemma_hex_digits_value_nonnegative(s);
    } else {
        lemma_hex_digits_value_grows(s, k + 1);
        let t = s.take(k + 1);
        assert(t.drop_last() =~= s.take(k));
        lemma_hex_digits_value_nonnegative(s.take(k));
    }
}

/// A run of hexadecimal digits stands for a number that is not negative.
pub proof fn lemma_hex_digits_value_nonnegative(s: Seq<char>)
    requires
        all_hex_digits(s),
    ensures
        0 <= hex_digits_value(s),
    decreases s.len(),
{
    if s.len() > 0 {
        lemma_hex_digits_value_nonnegative(s.drop_last());
    }
}

/// The text of a number is made of digits, at least one, and stands for
/// the number.
pub proof fn lemma_hex_text_stands_for_its_number(n: nat)
    ensures
        hex_text(n).len() >= 1,
        all_hex_digits(hex_text(n)),
        hex_digits_value(hex_text(n)) == n,
    decreases n,
{
    let d = (n % 16) as int;
    let text = hex_text(n);
    if n >= 16 {
        lemma_hex_text_stands_for_its_number(n / 16);
        assert(text.drop_last() =~= hex_text(n / 16));
    }
    assert(hex_digits_value(text) == 16 * hex_digits_value(text.drop_last()) + d);
}

/// What is written reads back: the text of a number that fits 64 bits,
/// with `0x` before it, stands for that number.
pub proof fn lemma_hex_text_reads_back(n: nat)
    requires
        n <= u64::MAX,
    ensures
        hex_u64("0x"@ + hex_text(n)) == Some(n as u64),
{
    reveal_strlit("0x");
    lemma_hex_text_stands_for_its_number(n);
    let digits = hex_text(n);
    let text = "0x"@ + digits;
    assert(text.skip(2) =~= digits);
}

/// A hexadecimal quantity is ASCII text.
proof fn lemma_quantity_is_ascii(s: Seq<char>)
    requires
        hex_quantity(s) is Some,
    ensures
        is_ascii_chars(s),
{
    assert forall|i: int| 0 <= i < s.len() implies '\0' <= #[trigger] s[i] <= '\u{7f}' by {
        if i >= 2 {
            assert(is_hex_digit(s.skip(2)[i - 2]));
        }
    }
}

/// The number that the ASCII byte `b` stands for as a hexadecimal digit, if
/// it is one.
fn hex_digit_of_byte(b: u8) -> (d: Option<u8>)
    ensures
        d is Some <==> is_hex_digit(b as char),
        d matches Some(v) ==> v == hex_digit_value(b as char) && v < 16,
{
    if b >= 48 && b <= 57 {
        Some(b - 48)
    } else if b >= 97 && b <= 102 {
        Some(b - 87)
    } else if b >= 65 && b <= 70 {
        Some(b - 55)
    } else {
        None
    }
}

/// Reads a hexadecimal quantity. `None` where the text is no quantity or
/// the number does not fit.
fn parse_quantity(s: &str) -> (parsed: Option<u64>)
    ensures
        match parsed {
            Some(v) => hex_quantity(s@) == Some(v as int),
            None => hex_quantity(s@) matches Some(v) ==> v > u64::MAX,
        },
{
    let bytes = match ascii_bytes(s) {
        Some(b) => b,
        None => {
            proof {
                if hex_quantity(s@) is Some {
                    lemma_quantity_is_ascii(s@);
                }
            }
            return None;
        },
    };
    let n = bytes.len();
    if n < 3 || bytes[0] != 48 || bytes[1] != 120 {
        return None;
    }
    let ghost digits = s@.skip(2);
    let mut at: usize = 2;
    let mut value: u64 = 0;
    while at < n
        invariant
            2 <= at <= n,
            n == s@.len(),
            spells(bytes@, s@),
            digits == s@.skip(2),
            s@[0] == '0',
            s@[1] == 'x',
            all_hex_digits(digits.take(at - 2)),
            value == hex_digits_value(digits.take(at - 2)),
        decreases n - at,
    {
        let ghost seen = digits.take(at - 2);
        let ghost next = digits.take(at - 2 + 1);
        proof {
            assert(next.drop_last() =~= seen);
        }
        match hex_digit_of_byte(bytes[at]) {
            Some(d) => {
                proof {
                    assert forall|i: int| 0 <= i < next.len() implies is_hex_digit(
                        #[trigger] next[i],
                    ) by {
                        if i < seen.len() {
                            assert(next[i] == seen[i]);
                        }
                    }
                }
                if value > (u64::MAX - d as u64) / 16 {
                    proof {
                        if all_hex_digits(digits) {
                            lemma_hex_digits_value_grows(digits, at - 2 + 1);
                        }
                    }
                    return None;
                }
                value = value * 16 + d as u64;
            },
            None => {
                proof {
                    assert(!is_hex_digit(digits[at - 2]));
                }
                return None;
            },
        }
        at += 1;
    }
    proof {
        assert(digits.take(at - 2) =~= digits);
    }
    Some(value)
}

/// Reads a hexadecimal quantity as a signed 64-bit integer, or `None` where
/// the text is no quantity or the number does not fit.
pub fn parse_i64_from_hex(s: &str) -> (parsed: Option<i64>)
    ensures
        parsed == hex_i64(s@),
{
    match parse_quantity(s) {
        Some(v) => if v <= 0x7fff_ffff_ffff_ffff {
            Some(v as i64)
        } else {
            None
        },
        None => None,
    }
}

/// Reads a hexadecimal quantity as an unsigned 64-bit integer, or `None`
/// where the text is no quantity or the number does not fit.
pub fn parse_u64_from_hex(s: &str) -> (parsed: Option<u64>)
    ensures
        parsed == hex_u64(s@),
{
    parse_quantity(s)
}

/// Reads a hexadecimal quantity as a signed 64-bit integer.
///
/// The text must be a quantity that fits: see [`hex_i64`].
pub fn convert_i64_from_hex(str: &str) -> (value: i64)
    requires
        hex_i64(str@) is Some,
    ensures
        Some(value) == hex_i64(str@),
{
    match parse_i64_from_hex(str) {
        Some(v) => v,
        None => 0,
    }
}

/// Reads a hexadecimal quantity as an unsigned 64-bit integer.
///
/// The text must be a quantity that fits: see [`hex_u64`].
pub fn convert_u64_from_hex(str: &str) -> (value: u64)
    requires
        hex_u64(str@) is Some,
    ensures
        Some(value) == hex_u64(str@),
{
    match parse_u64_from_hex(str) {
        Some(v) => v,
        None => 0,
    }
}

/// The lower-case hexadecimal digit for `d`, as a string of one character.
fn lower_hex_digit_str(d: u8) -> (s: &'static str)
    requires
        d < 16,
    ensures
        s@ == seq![lower_hex_digit(d as int)],
{
    proof {
        reveal_strlit("0");
        reveal_strlit("1");
        reveal_strlit("2");
        reveal_strlit("3");
        reveal_strlit("4");
        reveal_strlit("5");
        reveal_strlit("6");
        reveal_strlit("7");
        reveal_strlit("8");
        reveal_strlit("9");
        reveal_strlit("a");
        reveal_strlit("b");
        reveal_strlit("c");
        reveal_strlit("d");
        reveal_strlit("e");
        reveal_strlit("f");
    }
    match d {
        0 => "0",
        1 => "1",
        2 => "2",
        3 => "3",
        4 => "4",
        5 => "5",
        6 => "6",
        7 => "7",
        8 => "8",
        9 => "9",
        10 => "a",
        11 => "b",
        12 => "c",
        13 => "d",
        14 => "e",
        _ => "f",
    }
}

/// Writes a number in hexadecimal: lower-case digits without a prefix.
pub fn to_hex(n: u128) -> (text: String)
    ensures
        text@ == hex_text(n as nat),
    decreases n,
{
    if n < 16 {
        lower_hex_digit_str(n as u8).to_owned()
    } else {
        let mut text = to_hex(n / 16);
        text.append(lower_hex_digit_str((n % 16) as u8));
        text
    }
}

/// Decodes hexadecimal text into bytes.
///
/// Calls `alloy_primitives::hex::decode`. Believed of it: it accepts
/// exactly the texts for which [`hex_bytes`] has a value, digits in either
/// case and one optional `0x` or `0X` in front, and returns those bytes; for
/// a text of odd length or with any other character it returns its error,
/// which becomes `None` here.
#[verifier::external_body]
pub(crate) fn decode_hex(input: &str) -> (bytes: Option<Vec<u8>>)
    ensures
        match bytes {
            Some(b) => hex_bytes(input@) == Some(b@),
            None => hex_bytes(input@) is None,
        },
{
    alloy_primitives::hex::decode(input).ok()
}

} // verus!
