//! The remarks at the end of a report.

use vstd::prelude::*;
use vstd::string::StringExecFns;
use crate::decimals::all_zeros;
use crate::decimals::decimal_parts;
use crate::decimals::is_zeros;
use crate::decimals::push_shortest_hundredth;
use crate::decimals::read_decimal;
use crate::decimals::shortest_hundredth;
use crate::numbers::decimal;
use crate::numbers::parse_signed;
use crate::numbers::parse_unsigned;
use crate::numbers::push_decimal;
use crate::numbers::push_tenths;
use crate::numbers::signed;
use crate::numbers::tenths_text;
use crate::numbers::unsigned;
use crate::text::begins;
use crate::text::equals;
use crate::text::halves;
use crate::text::holds;
use crate::text::join;
use crate::text::joined;
use crate::text::rest;
use crate::text::split_halves;
use crate::text::starts_with;
use crate::text::texts;
use crate::tokens::Tokens;

verus! {

/// The rain that a remark beginning with `RAE` reports as ended, in words.
pub open spec fn rain_end(token: Seq<char>) -> Option<Seq<char>> {
    match unsigned(token.skip(3)) {
        Some(minute) => Some(
            "Rain ended at "@ + decimal(minute as nat) + " minutes past the hour"@,
        ),
        None => None,
    }
}

/// The precipitation of the past hour that a remark beginning with `P`
/// reports, in words. The number after the `P`, with or without a decimal
/// point, is in hundredths of an inch.
pub open spec fn precipitation(token: Seq<char>) -> Option<Seq<char>> {
    match decimal_parts(token.skip(1)) {
        Some((whole, fraction)) => if all_zeros(whole) && all_zeros(fraction) {
            Some("No precipitation in past hour"@)
        } else {
            Some("Precipitation: "@ + shortest_hundredth(whole, fraction) + " inches"@)
        },
        None => None,
    }
}

/// The temperature and dew point that a remark beginning with `T` reports to
/// the tenth of a degree, in words. The two numbers, in tenths of a degree,
/// stand on either side of a slash.
pub open spec fn precise_temperature(token: Seq<char>) -> Option<Seq<char>> {
    match halves(token.skip(1)) {
        Some((left, right)) => match (signed(left), signed(right)) {
            (Some(temperature), Some(dew_point)) => Some(
                "Precise temperature: "@ + tenths_text(temperature as int) + "\u{b0}C / "@
                    + tenths_text(dew_point as int) + "\u{b0}C"@,
            ),
            _ => None,
        },
        None => None,
    }
}

/// A remark in words, where it is one of those that are understood.
pub open spec fn remark_of(token: Seq<char>) -> Option<Seq<char>> {
    if starts_with(token, "AO"@) {
        Some("Automated station"@)
    } else if starts_with(token, "RAE"@) {
        rain_end(token)
    } else if starts_with(token, "P"@) && token.len() > 1 {
        precipitation(token)
    } else if starts_with(token, "T"@) && token.len() > 1 && token.contains('/') {
        precise_temperature(token)
    } else {
        None
    }
}

/// The remarks from index `at` on that are understood, each in words, up to
/// the end of the report or to the first token that is `$`.
pub open spec fn remark_parts(tokens: Seq<Seq<char>>, at: int) -> Seq<Seq<char>>
    decreases tokens.len() - at,
{
    if 0 <= at < tokens.len() && tokens[at] != "$"@ {
        match remark_of(tokens[at]) {
            Some(words) => seq![words] + remark_parts(tokens, at + 1),
            None => remark_parts(tokens, at + 1),
        }
    } else {
        Seq::empty()
    }
}

/// The remarks that the tokens give from index `at` on, in words, with a full
/// stop between each two; nothing where none is understood.
pub open spec fn remarks_at(tokens: Seq<Seq<char>>, at: int) -> Seq<char> {
    joined(remark_parts(tokens, at), ". "@)
}

/// Reads one remark.
pub fn read_remark(token: &[char]) -> (words: Option<String>)
    ensures
        words is Some <==> remark_of(token@) is Some,
        words matches Some(w) ==> remark_of(token@) == Some(w@),
{
    if begins(token, "AO") {
        Some(String::from_str("Automated station"))
    } else if begins(token, "RAE") {
        proof {
            reveal_strlit("RAE");
        }
        let tail = rest(token, 3);
        match parse_unsigned(tail) {
            Some(minute) => {
                let mut words = String::from_str("Rain ended at ");
                push_decimal(&mut words, minute as u64);
                words.append(" minutes past the hour");
                Some(words)
            },
            None => None,
        }
    } else if begins(token, "P") && token.len() > 1 {
        let tail = rest(token, 1);
        match read_decimal(tail) {
            Some((whole, fraction)) => {
                if is_zeros(whole) && is_zeros(fraction) {
                    Some(String::from_str("No precipitation in past hour"))
                } else {
                    let mut words = String::from_str("Precipitation: ");
                    push_shortest_hundredth(&mut words, whole, fraction);
                    words.append(" inches");
                    Some(words)
                }
            },
            None => None,
        }
    } else if begins(token, "T") && token.len() > 1 && holds(token, '/') {
        let tail = rest(token, 1);
        match split_halves(tail) {
            Some((left, right)) => match (parse_signed(left), parse_signed(right)) {
                (Some(temperature), Some(dew_point)) => {
                    let mut words = String::from_str("Precise temperature: ");
                    push_tenths(&mut words, temperature);
                    words.append("\u{b0}C / ");
                    push_tenths(&mut words, dew_point);
                    words.append("\u{b0}C");
                    Some(words)
                },
                _ => None,
            },
            None => None,
        }
    } else {
        None
    }
}

/// Reads the remarks from index `at` on, and gives them in words.
pub fn decode_remarks(tokens: &Tokens, at: usize) -> (text: String)
    ensures
        text@ == remarks_at(tokens@, at as int),
{
    let mut parts: Vec<String> = Vec::new();
    let mut i: usize = at;
    while i < tokens.len() && !equals(tokens.word(i), "$")
        invariant
            at <= i,
            i <= tokens@.len() || i == at,
            remark_parts(tokens@, at as int) == texts(parts@) + remark_parts(tokens@, i as int),
        decreases tokens@.len() - i,
    {
        if let Some(words) = read_remark(tokens.word(i)) {
            parts.push(words);
        }
        i += 1;
    }
    join(&parts, ". ")
}

} // verus!
