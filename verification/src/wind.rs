//! The wind group, and the group of a varying direction that may follow it.

use vstd::prelude::*;
use vstd::string::StringExecFns;
use crate::numbers::decimal;
use crate::numbers::digits;
use crate::numbers::parse_digits;
use crate::numbers::parse_unsigned;
use crate::numbers::push_decimal;
use crate::numbers::unsigned;
use crate::text::begins;
use crate::text::ends;
use crate::text::ends_with;
use crate::text::field;
use crate::text::find;
use crate::text::first_index;
use crate::text::part;
use crate::text::starts_with;
use crate::tokens::Tokens;
use crate::units::cardinal;
use crate::units::degrees_to_cardinal;

verus! {

/// The speed of the gusts that a wind group gives: the number in the two
/// characters after its first `G`.
pub open spec fn gust_of(token: Seq<char>) -> Option<u32> {
    if token.contains('G') {
        let at = first_index(token, 'G');
        unsigned(field(token, at + 1, at + 3))
    } else {
        None
    }
}

/// The gusts of a wind group in words; nothing where it gives none.
pub open spec fn gust_text(token: Seq<char>) -> Seq<char> {
    match gust_of(token) {
        Some(gust) => ", gusting to "@ + decimal(gust as nat) + " knots"@,
        None => Seq::empty(),
    }
}

/// The speed of a wind of variable direction: the group begins with `VRB`,
/// and the two characters that follow are a number.
pub open spec fn variable_wind(token: Seq<char>) -> Option<u32> {
    if starts_with(token, "VRB"@) {
        unsigned(field(token, 3, 5))
    } else {
        None
    }
}

/// Direction and speed of a wind of given direction: the group does not begin
/// with `VRB`, has seven characters or more and ends in `KT`, its first three
/// characters are a number, and so are the two that follow.
pub open spec fn directed_wind(token: Seq<char>) -> Option<(u32, u32)> {
    if !starts_with(token, "VRB"@) && token.len() >= 7 && ends_with(token, "KT"@) {
        match (unsigned(field(token, 0, 3)), unsigned(field(token, 3, 5))) {
            (Some(direction), Some(speed)) => Some((direction, speed)),
            _ => None,
        }
    } else {
        None
    }
}

/// Whether a token is a wind group.
pub open spec fn is_wind(token: Seq<char>) -> bool {
    variable_wind(token) is Some || directed_wind(token) is Some
}

/// A wind group in words; nothing where the token is no wind group.
pub open spec fn wind_text(token: Seq<char>) -> Seq<char> {
    match variable_wind(token) {
        Some(speed) => "Variable at "@ + decimal(speed as nat) + " knots"@ + gust_text(token),
        None => match directed_wind(token) {
            Some((direction, speed)) => decimal(direction as nat) + " degrees ("@ + cardinal(
                direction as nat,
            ) + ") at "@ + decimal(speed as nat) + " knots"@ + gust_text(token),
            None => Seq::empty(),
        },
    }
}

/// The two directions between which the wind varies: the token is three
/// digits, a `V`, and three digits.
pub open spec fn swing_of(token: Seq<char>) -> Option<(u32, u32)> {
    if token.len() == 7 && token[3] == 'V' {
        match (digits(token.subrange(0, 3)), digits(token.subrange(4, 7))) {
            (Some(from), Some(to)) => Some((from, to)),
            _ => None,
        }
    } else {
        None
    }
}

/// A varying direction in words.
pub open spec fn swing_text(from: u32, to: u32) -> Seq<char> {
    ", variable between "@ + decimal(from as nat) + " and "@ + decimal(to as nat) + " degrees"@
}

/// A varying direction in words; nothing where there is none.
pub open spec fn swing_words(swing: Option<(u32, u32)>) -> Seq<char> {
    match swing {
        Some((from, to)) => swing_text(from, to),
        None => Seq::empty(),
    }
}

/// Whether the token at index `at` is a group of varying direction that
/// belongs to the wind group before it.
pub open spec fn swing_follows(tokens: Seq<Seq<char>>, at: int) -> bool {
    &&& 0 < at < tokens.len()
    &&& directed_wind(tokens[at - 1]) is Some
    &&& swing_of(tokens[at]) is Some
}

/// The wind that the tokens give at index `at`, in words: the wind group
/// there and, after a wind of given direction, the varying direction in the
/// token that follows. Nothing where no wind group stands at `at`.
pub open spec fn wind_at(tokens: Seq<Seq<char>>, at: int) -> Seq<char> {
    if 0 <= at < tokens.len() && is_wind(tokens[at]) {
        if swing_follows(tokens, at + 1) {
            wind_text(tokens[at]) + swing_words(swing_of(tokens[at + 1]))
        } else {
            wind_text(tokens[at])
        }
    } else {
        Seq::empty()
    }
}

/// The index of the first token after the wind at index `at`: `at` itself
/// where no wind group stands there.
pub open spec fn past_wind(tokens: Seq<Seq<char>>, at: int) -> int {
    if 0 <= at < tokens.len() && is_wind(tokens[at]) {
        if swing_follows(tokens, at + 1) {
            at + 2
        } else {
            at + 1
        }
    } else {
        at
    }
}

/// The gusts of a wind group in words.
fn gust_words(token: &[char]) -> (words: String)
    ensures
        words@ == gust_text(token@),
{
    match find(token, 'G') {
        None => String::new(),
        Some(at) => {
            let gust = if token.len() - at >= 3 {
                parse_unsigned(part(token, at + 1, at + 3))
            } else {
                None
            };
            match gust {
                None => String::new(),
                Some(gust) => {
                    let mut words = String::from_str(", gusting to ");
                    push_decimal(&mut words, gust as u64);
                    words.append(" knots");
                    words
                },
            }
        },
    }
}

/// The speed of a wind of variable direction.
pub fn read_variable_wind(token: &[char]) -> (speed: Option<u32>)
    ensures
        speed == variable_wind(token@),
{
    if begins(token, "VRB") {
        parse_unsigned(part(token, 3, 5))
    } else {
        None
    }
}

/// Direction and speed of a wind of given direction.
pub fn read_directed_wind(token: &[char]) -> (wind: Option<(u32, u32)>)
    ensures
        wind == directed_wind(token@),
{
    if !begins(token, "VRB") && token.len() >= 7 && ends(token, "KT") {
        match (parse_unsigned(part(token, 0, 3)), parse_unsigned(part(token, 3, 5))) {
            (Some(direction), Some(speed)) => Some((direction, speed)),
            _ => None,
        }
    } else {
        None
    }
}

/// The two directions between which the wind varies.
pub fn read_swing(token: &[char]) -> (swing: Option<(u32, u32)>)
    ensures
        swing == swing_of(token@),
{
    if token.len() == 7 && token[3] == 'V' {
        match (parse_digits(part(token, 0, 3)), parse_digits(part(token, 4, 7))) {
            (Some(from), Some(to)) => Some((from, to)),
            _ => None,
        }
    } else {
        None
    }
}

/// Reads the wind at index `at`: the wind in words, nothing where no wind
/// group stands there, and the index of the first token after it.
pub fn decode_wind(tokens: &Tokens, at: usize) -> (found: (String, usize))
    ensures
        found.0@ == wind_at(tokens@, at as int),
        found.1 == past_wind(tokens@, at as int),
        at <= found.1,
        at <= tokens@.len() ==> found.1 <= tokens@.len(),
{
    if at >= tokens.len() {
        return (String::new(), at);
    }
    let token = tokens.word(at);
    match read_variable_wind(token) {
        Some(speed) => {
            let mut text = String::from_str("Variable at ");
            push_decimal(&mut text, speed as u64);
            text.append(" knots");
            let gusts = gust_words(token);
            text.append(gusts.as_str());
            (text, at + 1)
        },
        None => match read_directed_wind(token) {
            None => (String::new(), at),
            Some((direction, speed)) => {
                let mut text = String::new();
                push_decimal(&mut text, direction as u64);
                text.append(" degrees (");
                text.append(degrees_to_cardinal(direction));
                text.append(") at ");
                push_decimal(&mut text, speed as u64);
                text.append(" knots");
                let gusts = gust_words(token);
                text.append(gusts.as_str());
                if at + 1 < tokens.len() {
                    match read_swing(tokens.word(at + 1)) {
                        Some((from, to)) => {
                            let mut swing = String::from_str(", variable between ");
                            push_decimal(&mut swing, from as u64);
                            swing.append(" and ");
                            push_decimal(&mut swing, to as u64);
                            swing.append(" degrees");
                            text.append(swing.as_str());
                            (text, at + 2)
                        },
                        None => (text, at + 1),
                    }
                } else {
                    (text, at + 1)
                }
            },
        },
    }
}

} // verus!
