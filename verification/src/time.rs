//! The time of the observation: day of the month, hour and minute.

use vstd::prelude::*;
use vstd::string::StringExecFns;
use crate::numbers::decimal;
use crate::numbers::parse_unsigned;
use crate::numbers::push_decimal;
use crate::numbers::push_two_digits;
use crate::numbers::two_digits;
use crate::numbers::unsigned;
use crate::text::part;

verus! {

/// A time of observation in universal time.
#[derive(Clone, Copy, Debug, PartialEq, Eq, Structural)]
pub struct ZuluTime {
    pub day: u32,
    pub hour: u32,
    pub minute: u32,
}

/// The time that a token gives: the token has seven characters, the last of
/// them `Z`, and its first three pairs of characters are numbers.
pub open spec fn time_of(token: Seq<char>) -> Option<ZuluTime> {
    if token.len() == 7 && token[6] == 'Z' {
        match (
            unsigned(token.subrange(0, 2)),
            unsigned(token.subrange(2, 4)),
            unsigned(token.subrange(4, 6)),
        ) {
            (Some(day), Some(hour), Some(minute)) => Some(ZuluTime { day, hour, minute }),
            _ => None,
        }
    } else {
        None
    }
}

/// A time of observation in words.
pub open spec fn time_text(time: ZuluTime) -> Seq<char> {
    "Day "@ + decimal(time.day as nat) + ", "@ + decimal(time.hour as nat) + ":"@ + two_digits(
        time.minute as nat,
    ) + "Z"@
}

/// Reads the time of observation from a token.
pub fn read_time(token: &[char]) -> (time: Option<ZuluTime>)
    ensures
        time == time_of(token@),
{
    if token.len() != 7 || token[6] != 'Z' {
        return None;
    }
    let day = parse_unsigned(part(token, 0, 2));
    let hour = parse_unsigned(part(token, 2, 4));
    let minute = parse_unsigned(part(token, 4, 6));
    match (day, hour, minute) {
        (Some(day), Some(hour), Some(minute)) => Some(ZuluTime { day, hour, minute }),
        _ => None,
    }
}

impl ZuluTime {
    /// The time in words.
    pub fn to_text(&self) -> (text: String)
        ensures
            text@ == time_text(*self),
    {
        let mut text = String::from_str("Day ");
        push_decimal(&mut text, self.day as u64);
        text.append(", ");
        push_decimal(&mut text, self.hour as u64);
        text.append(":");
        push_two_digits(&mut text, self.minute as u64);
        text.append("Z");
        text
    }
}

} // verus!
