//! Whole numbers in decimal notation: reading them from characters and
//! writing them as text.

use vstd::prelude::*;
use crate::text::push_char;
use crate::text::rest;

verus! {

/// Whether `c` is one of the ten decimal digits.
pub open spec fn is_digit(c: char) -> bool {
    0x30 <= c as u32 <= 0x39
}

/// The number that the digit `c` stands for.
pub open spec fn digit_of(c: char) -> nat {
    (c as u32 - 0x30) as nat
}

/// Whether `s` holds decimal digits only.
pub open spec fn all_digits(s: Seq<char>) -> bool {
    forall|i: int| 0 <= i < s.len() ==> is_digit(#[trigger] s[i])
}

/// The number that a run of decimal digits denotes, the most significant
/// digit first. An empty run denotes zero.
pub open spec fn digits_value(s: Seq<char>) -> nat
    decreases s.len(),
{
    if s.len() == 0 {
        0
    } else {
        digits_value(s.drop_last()) * 10 + digit_of(s.last())
    }
}

/// The number that a run of one or more decimal digits denotes, where it
/// fits in 32 bits. Anything else denotes no number.
pub open spec fn digits(s: Seq<char>) -> Option<u32> {
    if s.len() > 0 && all_digits(s) && digits_value(s) <= u32::MAX {
        Some(digits_value(s) as u32)
    } else {
        None
    }
}

/// `s` without a plus sign at its start.
pub open spec fn unsigned_body(s: Seq<char>) -> Seq<char> {
    if s.len() > 0 && s[0] == '+' {
        s.skip(1)
    } else {
        s
    }
}

/// The unsigned number written in `s`: an optional plus sign, then one or
/// more decimal digits whose value fits in 32 bits. Anything else denotes
/// no number.
pub open spec fn unsigned(s: Seq<char>) -> Option<u32> {
    digits(unsigned_body(s))
}

/// Whether `s` begins with a minus sign.
pub open spec fn is_negative(s: Seq<char>) -> bool {
    s.len() > 0 && s[0] == '-'
}

/// `s` without a plus or minus sign at its start.
pub open spec fn signed_body(s: Seq<char>) -> Seq<char> {
    if s.len() > 0 && (s[0] == '+' || s[0] == '-') {
        s.skip(1)
    } else {
        s
    }
}

/// The signed number written in `s`: an optional plus or minus sign, then one
/// or more decimal digits, the whole within the range of 32 bits. Anything
/// else denotes no number.
pub open spec fn signed(s: Seq<char>) -> Option<i32> {
    let body = signed_body(s);
    let value = if is_negative(s) {
        -(digits_value(body) as int)
    } else {
        digits_value(body) as int
    };
    if body.len() > 0 && all_digits(body) && i32::MIN <= value <= i32::MAX {
        Some(value as i32)
    } else {
        None
    }
}

/// The character that writes the digit `d`.
pub open spec fn digit_char(d: nat) -> char
    recommends
        d < 10,
{
    ((0x30 + d) as u8) as char
}

/// `n` in decimal notation, without leading zeros.
pub open spec fn decimal(n: nat) -> Seq<char>
    decreases n,
{
    if n < 10 {
        seq![digit_char(n)]
    } else {
        decimal(n / 10).push(digit_char(n % 10))
    }
}

/// `n` in decimal notation, with a minus sign where it is negative.
pub open spec fn signed_decimal(n: int) -> Seq<char> {
    if n < 0 {
        seq!['-'] + decimal((-n) as nat)
    } else {
        decimal(n as nat)
    }
}

/// `n` in decimal notation, with a leading zero where it has one digit.
pub open spec fn two_digits(n: nat) -> Seq<char> {
    if n < 10 {
        seq!['0'] + decimal(n)
    } else {
        decimal(n)
    }
}

/// Ten to the power `n`.
pub open spec fn pow10(n: nat) -> nat
    decreases n,
{
    if n == 0 {
        1
    } else {
        10 * pow10((n - 1) as nat)
    }
}

/// A run of digits denotes less than ten to the power of its length.
pub proof fn digits_value_bound(s: Seq<char>)
    requires
        all_digits(s),
    ensures
        digits_value(s) < pow10(s.len()),
    decreases s.len(),
{
    if s.len() > 0 {
        digits_value_bound(s.drop_last());
    }
}

/// A run of digits denotes at least what any of its beginnings denotes.
pub proof fn digits_value_grows(s: Seq<char>, k: int)
    requires
        0 <= k <= s.len(),
    ensures
        digits_value(s.take(k)) <= digits_value(s),
    decreases s.len(),
{
    if k == s.len() {
        assert(s.take(k) =~= s);
    } else {
        digits_value_grows(s.drop_last(), k);
        assert(s.drop_last().take(k) =~= s.take(k));
    }
}

/// Reads a run of digits.
pub fn parse_digits(chars: &[char]) -> (value: Option<u32>)
    ensures
        value == digits(chars@),
{
    if chars.len() == 0 {
        return None;
    }
    let mut total: u64 = 0;
    let mut i: usize = 0;
    while i < chars.len()
        invariant
            i <= chars.len(),
            all_digits(chars@.take(i as int)),
            total == digits_value(chars@.take(i as int)),
            total <= u32::MAX,
        decreases chars.len() - i,
    {
        let c = chars[i];
        let code: u32 = c as u32;
        if code < 0x30 || code > 0x39 {
            return None;
        }
        let ghost before = chars@.take(i as int);
        let ghost after = chars@.take(i + 1);
        assert(after.drop_last() =~= before);
        total = total * 10 + (code - 0x30) as u64;
        if total > u32::MAX as u64 {
            proof {
                digits_value_grows(chars@, i + 1);
            }
            return None;
        }
        i += 1;
    }
    assert(chars@.take(i as int) =~= chars@);
    Some(total as u32)
}

/// Reads an unsigned number.
pub fn parse_unsigned(chars: &[char]) -> (value: Option<u32>)
    ensures
        value == unsigned(chars@),
{
    let body = if chars.len() > 0 && chars[0] == '+' {
        rest(chars, 1)
    } else {
        chars
    };
    parse_digits(body)
}

/// Reads a signed number.
pub fn parse_signed(chars: &[char]) -> (value: Option<i32>)
    ensures
        value == signed(chars@),
{
    let negative = chars.len() > 0 && chars[0] == '-';
    let body = if chars.len() > 0 && (chars[0] == '+' || chars[0] == '-') {
        rest(chars, 1)
    } else {
        chars
    };
    match parse_digits(body) {
        None => None,
        Some(v) => {
            if negative {
                if v <= 0x8000_0000u32 {
                    Some((-(v as i64)) as i32)
                } else {
                    None
                }
            } else {
                if v <= 0x7fff_ffffu32 {
                    Some(v as i32)
                } else {
                    None
                }
            }
        },
    }
}

/// Adds `n` in decimal notation to the end of `text`.
pub fn push_decimal(text: &mut String, n: u64)
    ensures
        final(text)@ == old(text)@ + decimal(n as nat),
    decreases n,
{
    if n >= 10 {
        push_decimal(text, n / 10);
    }
    let d: u8 = (n % 10) as u8;
    push_char(text, (0x30 + d) as char);
}

/// Adds `n` in decimal notation, with its sign where it is negative, to the
/// end of `text`.
pub fn push_signed(text: &mut String, n: i64)
    ensures
        final(text)@ == old(text)@ + signed_decimal(n as int),
{
    if n < 0 {
        push_char(text, '-');
        push_decimal(text, (-(n + 1)) as u64 + 1);
    } else {
        push_decimal(text, n as u64);
    }
}

/// Adds `n` in decimal notation, with a leading zero where it has one digit,
/// to the end of `text`.
pub fn push_two_digits(text: &mut String, n: u64)
    ensures
        final(text)@ == old(text)@ + two_digits(n as nat),
{
    if n < 10 {
        push_char(text, '0');
        push_decimal(text, n);
    } else {
        push_decimal(text, n);
    }
}

/// A number of hundredths written with two decimal places.
pub open spec fn hundredths_text(hundredths: nat) -> Seq<char> {
    decimal(hundredths / 100) + seq!['.'] + two_digits(hundredths % 100)
}

/// A number of tenths written with one decimal place, and with a minus sign
/// where it is negative.
pub open spec fn tenths_text(tenths: int) -> Seq<char> {
    if tenths < 0 {
        seq!['-'] + decimal(((-tenths) / 10) as nat) + seq!['.'] + decimal(((-tenths) % 10) as nat)
    } else {
        decimal((tenths / 10) as nat) + seq!['.'] + decimal((tenths % 10) as nat)
    }
}

/// Adds a number of hundredths, written with two decimal places, to the end
/// of `text`.
pub fn push_hundredths(text: &mut String, hundredths: u64)
    ensures
        final(text)@ == old(text)@ + hundredths_text(hundredths as nat),
{
    push_decimal(text, hundredths / 100);
    push_char(text, '.');
    push_two_digits(text, hundredths % 100);
}

/// Adds a number of tenths, written with one decimal place, to the end of
/// `text`.
pub fn push_tenths(text: &mut String, tenths: i32)
    ensures
        final(text)@ == old(text)@ + tenths_text(tenths as int),
{
    let size: u64 = if tenths < 0 {
        push_char(text, '-');
        (-(tenths as i64)) as u64
    } else {
        tenths as u64
    };
    push_decimal(text, size / 10);
    push_char(text, '.');
    push_decimal(text, size % 10);
}

/// A run of digits denotes less than a million where it has six digits at
/// most.
pub proof fn short_digits_are_small(s: Seq<char>)
    requires
        all_digits(s),
        s.len() <= 6,
    ensures
        digits_value(s) <= 999_999,
{
    digits_value_bound(s);
    reveal_with_fuel(pow10, 8);
}

/// A number in decimal notation is a run of digits that denotes the number.
pub proof fn decimal_denotes_its_number(n: nat)
    ensures
        decimal(n).len() > 0,
        all_digits(decimal(n)),
        digits_value(decimal(n)) == n,
    decreases n,
{
    if n < 10 {
        assert(digits_value(decimal(n).drop_last()) == 0);
    } else {
        decimal_denotes_its_number(n / 10);
        let shorter = decimal(n / 10);
        let whole = decimal(n);
        assert(whole.drop_last() =~= shorter);
    }
}

/// What is written is read back: the decimal notation of a number of 32 bits
/// is read as that number, unsigned and signed alike.
pub proof fn written_numbers_read_back(n: u32, m: i32)
    ensures
        digits(decimal(n as nat)) == Some(n),
        unsigned(decimal(n as nat)) == Some(n),
        signed(signed_decimal(m as int)) == Some(m),
{
    decimal_denotes_its_number(n as nat);
    if m < 0 {
        let size = (-(m as int)) as nat;
        decimal_denotes_its_number(size);
        assert(signed_decimal(m as int).skip(1) =~= decimal(size));
    } else {
        decimal_denotes_its_number(m as nat);
    }
}

} // verus!
