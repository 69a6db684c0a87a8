//! Numbers with a decimal point, kept as their digits: reading them from
//! characters, and writing them in their shortest form.

use vstd::prelude::*;
use crate::numbers::all_digits;
use crate::numbers::decimal;
use crate::numbers::digit_char;
use crate::numbers::digit_of;
use crate::numbers::digits_value;
use crate::numbers::is_digit;
use crate::numbers::unsigned_body;
use crate::text::find;
use crate::text::first_index;
use crate::text::part;
use crate::text::push_char;
use crate::text::rest;

verus! {

/// The digits before and after the point of the number written in `s`: an
/// optional plus sign, then digits, with or without a point among them or at
/// either end, and one digit at least. A number without a point has no digits
/// after it. Anything else denotes no number.
pub open spec fn decimal_parts(s: Seq<char>) -> Option<(Seq<char>, Seq<char>)> {
    let body = unsigned_body(s);
    if body.contains('.') {
        let at = first_index(body, '.');
        let whole = body.take(at);
        let fraction = body.skip(at + 1);
        if all_digits(whole) && all_digits(fraction) && whole.len() + fraction.len() > 0 {
            Some((whole, fraction))
        } else {
            None
        }
    } else if body.len() > 0 && all_digits(body) {
        Some((body, Seq::empty()))
    } else {
        None
    }
}

/// `s` without the zeros at its start.
pub open spec fn without_leading_zeros(s: Seq<char>) -> Seq<char>
    decreases s.len(),
{
    if s.len() > 0 && s[0] == '0' {
        without_leading_zeros(s.drop_first())
    } else {
        s
    }
}

/// `s` without the zeros at its end.
pub open spec fn without_trailing_zeros(s: Seq<char>) -> Seq<char>
    decreases s.len(),
{
    if s.len() > 0 && s.last() == '0' {
        without_trailing_zeros(s.drop_last())
    } else {
        s
    }
}

/// Whether `s` holds zeros only.
pub open spec fn all_zeros(s: Seq<char>) -> bool {
    forall|i: int| 0 <= i < s.len() ==> s[i] == '0'
}

/// The number with the digits `whole` before the point and `fraction` after
/// it, in its shortest form: no zero leads the digits before the point, but
/// for a single zero where there is nothing else; no zero ends the digits
/// after the point; and the point is left out where nothing follows it.
pub open spec fn shortest_decimal(whole: Seq<char>, fraction: Seq<char>) -> Seq<char> {
    let before = without_leading_zeros(whole);
    let after = without_trailing_zeros(fraction);
    (if before.len() == 0 {
        seq!['0']
    } else {
        before
    }) + (if after.len() == 0 {
        Seq::empty()
    } else {
        seq!['.'] + after
    })
}

/// A hundredth of the number with the digits `whole` before the point and
/// `fraction` after it, in its shortest form: the point moves two places
/// toward the start.
pub open spec fn shortest_hundredth(whole: Seq<char>, fraction: Seq<char>) -> Seq<char> {
    let padded = seq!['0', '0'] + whole;
    shortest_decimal(padded.take(padded.len() - 2), padded.skip(padded.len() - 2) + fraction)
}

/// Whether `chars` holds decimal digits only.
pub fn is_digits(chars: &[char]) -> (digits: bool)
    ensures
        digits == all_digits(chars@),
{
    let mut i: usize = 0;
    while i < chars.len()
        invariant
            i <= chars.len(),
            forall|j: int| 0 <= j < i ==> is_digit(#[trigger] chars@[j]),
        decreases chars.len() - i,
    {
        let code: u32 = chars[i] as u32;
        if code < 0x30 || code > 0x39 {
            return false;
        }
        i += 1;
    }
    true
}

/// Whether `chars` holds zeros only.
pub fn is_zeros(chars: &[char]) -> (zeros: bool)
    ensures
        zeros == all_zeros(chars@),
{
    let mut i: usize = 0;
    while i < chars.len()
        invariant
            i <= chars.len(),
            forall|j: int| 0 <= j < i ==> chars@[j] == '0',
        decreases chars.len() - i,
    {
        if chars[i] != '0' {
            return false;
        }
        i += 1;
    }
    true
}

/// Reads a number with or without a decimal point: the digits before the
/// point and those after it.
pub fn read_decimal(chars: &[char]) -> (parts: Option<(&[char], &[char])>)
    ensures
        parts is Some <==> decimal_parts(chars@) is Some,
        parts matches Some((whole, fraction)) ==> decimal_parts(chars@) == Some(
            (whole@, fraction@),
        ),
{
    let body = if chars.len() > 0 && chars[0] == '+' {
        rest(chars, 1)
    } else {
        chars
    };
    match find(body, '.') {
        Some(at) => {
            let whole = part(body, 0, at);
            let fraction = rest(body, at + 1);
            if is_digits(whole) && is_digits(fraction) && (whole.len() > 0 || fraction.len() > 0) {
                Some((whole, fraction))
            } else {
                None
            }
        },
        None => {
            if body.len() > 0 && is_digits(body) {
                Some((body, part(body, 0, 0)))
            } else {
                None
            }
        },
    }
}

/// Adds the characters of `chars` to the end of `text`.
pub fn push_chars(text: &mut String, chars: &[char])
    ensures
        final(text)@ == old(text)@ + chars@,
{
    let mut i: usize = 0;
    while i < chars.len()
        invariant
            i <= chars.len(),
            text@ == old(text)@ + chars@.take(i as int),
        decreases chars.len() - i,
    {
        push_char(text, chars[i]);
        i += 1;
    }
}

/// Adds a number in its shortest form to the end of `text`.
pub fn push_shortest_decimal(text: &mut String, whole: &[char], fraction: &[char])
    ensures
        final(text)@ == old(text)@ + shortest_decimal(whole@, fraction@),
{
    let mut from: usize = 0;
    assert(whole@.skip(0) =~= whole@);
    while from < whole.len() && whole[from] == '0'
        invariant
            from <= whole.len(),
            without_leading_zeros(whole@) == without_leading_zeros(whole@.skip(from as int)),
        decreases whole.len() - from,
    {
        assert(whole@.skip(from as int).drop_first() =~= whole@.skip(from + 1));
        from += 1;
    }
    let mut to: usize = fraction.len();
    assert(fraction@.take(to as int) =~= fraction@);
    while to > 0 && fraction[to - 1] == '0'
        invariant
            to <= fraction.len(),
            without_trailing_zeros(fraction@) == without_trailing_zeros(fraction@.take(to as int)),
        decreases to,
    {
        assert(fraction@.take(to as int).drop_last() =~= fraction@.take(to - 1));
        to -= 1;
    }
    let before = part(whole, from, whole.len());
    let after = part(fraction, 0, to);
    if before.len() == 0 {
        push_char(text, '0');
    } else {
        push_chars(text, before);
    }
    if after.len() > 0 {
        push_char(text, '.');
        push_chars(text, after);
    }
}

/// Adds a hundredth of a number, in its shortest form, to the end of `text`.
pub fn push_shortest_hundredth(text: &mut String, whole: &[char], fraction: &[char])
    ensures
        final(text)@ == old(text)@ + shortest_hundredth(whole@, fraction@),
{
    let mut padded: Vec<char> = Vec::new();
    padded.push('0');
    padded.push('0');
    let mut i: usize = 0;
    while i < whole.len()
        invariant
            i <= whole.len(),
            padded@ == seq!['0', '0'] + whole@.take(i as int),
        decreases whole.len() - i,
    {
        padded.push(whole[i]);
        i += 1;
    }
    assert(whole@.take(whole.len() as int) =~= whole@);
    let cut = padded.len() - 2;
    let mut after: Vec<char> = Vec::new();
    after.push(padded[cut]);
    after.push(padded[cut + 1]);
    let mut j: usize = 0;
    while j < fraction.len()
        invariant
            j <= fraction.len(),
            cut + 2 == padded@.len(),
            after@ == padded@.skip(cut as int) + fraction@.take(j as int),
        decreases fraction.len() - j,
    {
        after.push(fraction[j]);
        j += 1;
    }
    assert(fraction@.take(fraction.len() as int) =~= fraction@);
    let before = part(padded.as_slice(), 0, cut);
    push_shortest_decimal(text, before, after.as_slice());
}

/// A zero at the start of a run of digits adds nothing to what it denotes.
pub proof fn leading_zero_counts_nothing(s: Seq<char>)
    requires
        s.len() > 0,
        s[0] == '0',
    ensures
        digits_value(s) == digits_value(s.drop_first()),
    decreases s.len(),
{
    if s.len() == 1 {
        assert(s.drop_last() =~= Seq::<char>::empty());
        assert(s.drop_first() =~= Seq::<char>::empty());
    } else {
        leading_zero_counts_nothing(s.drop_last());
        assert(s.drop_first().drop_last() =~= s.drop_last().drop_first());
    }
}

/// A run of digits without its leading zeros is a run of digits that denotes
/// the same, and does not begin with a zero.
pub proof fn leading_zeros_count_nothing(s: Seq<char>)
    requires
        all_digits(s),
    ensures
        all_digits(without_leading_zeros(s)),
        digits_value(without_leading_zeros(s)) == digits_value(s),
        without_leading_zeros(s).len() > 0 ==> without_leading_zeros(s)[0] != '0',
    decreases s.len(),
{
    if s.len() > 0 && s[0] == '0' {
        leading_zeros_count_nothing(s.drop_first());
        leading_zero_counts_nothing(s);
    }
}

/// The character that writes what a digit stands for is the digit.
pub proof fn digits_write_themselves(c: char)
    requires
        is_digit(c),
    ensures
        digit_char(digit_of(c)) == c,
{
}

/// A run of digits that does not begin with a zero is the decimal notation
/// of what it denotes.
pub proof fn digits_are_their_own_notation(s: Seq<char>)
    requires
        s.len() > 0,
        all_digits(s),
        s[0] != '0',
    ensures
        digits_value(s) >= 1,
        decimal(digits_value(s)) == s,
    decreases s.len(),
{
    digits_write_themselves(s.last());
    if s.len() > 1 {
        digits_are_their_own_notation(s.drop_last());
        assert(digits_value(s) / 10 == digits_value(s.drop_last()));
    }
}

/// A whole number in its shortest form is the number in decimal notation:
/// for a run of digits, the shortest form says what the run denotes.
pub proof fn whole_numbers_keep_their_notation(s: Seq<char>)
    requires
        s.len() > 0,
        all_digits(s),
    ensures
        shortest_decimal(s, Seq::empty()) == decimal(digits_value(s)),
{
    leading_zeros_count_nothing(s);
    let bare = without_leading_zeros(s);
    if bare.len() > 0 {
        digits_are_their_own_notation(bare);
    }
}

} // verus!
