//! Unit conversions used when a report is put into words.

use vstd::prelude::*;
use crate::numbers::hundredths_text;
use crate::numbers::push_hundredths;

verus! {

/// Quotient of `a` by a positive `b`, rounded toward zero.
pub open spec fn truncating_quotient(a: int, b: int) -> int
    recommends
        b > 0,
{
    if a >= 0 {
        a / b
    } else {
        -((-a) / b)
    }
}

/// Degrees Fahrenheit for a whole number of degrees Celsius: nine fifths of
/// it, rounded toward zero, plus thirty-two.
pub open spec fn fahrenheit_of(celsius: int) -> int {
    truncating_quotient(celsius * 9, 5) + 32
}

/// Converts a temperature from Celsius to Fahrenheit in whole degrees. The
/// result has to fit in 32 bits.
pub fn celsius_to_fahrenheit(celsius: i32) -> (fahrenheit: i32)
    requires
        i32::MIN <= fahrenheit_of(celsius as int) <= i32::MAX,
    ensures
        fahrenheit == fahrenheit_of(celsius as int),
{
    let wide: i64 = celsius as i64;
    ((wide * 9 / 5) + 32) as i32
}


/// The compass point, one of eight, that a wind direction in degrees falls
/// under; nothing for a direction above 360 degrees.
pub open spec fn cardinal(degrees: nat) -> Seq<char> {
    if degrees <= 22 || 338 <= degrees <= 360 {
        "N"@
    } else if degrees <= 67 {
        "NE"@
    } else if degrees <= 112 {
        "E"@
    } else if degrees <= 157 {
        "SE"@
    } else if degrees <= 202 {
        "S"@
    } else if degrees <= 247 {
        "SW"@
    } else if degrees <= 292 {
        "W"@
    } else if degrees <= 337 {
        "NW"@
    } else {
        ""@
    }
}

/// Names the compass point of a wind direction.
pub fn degrees_to_cardinal(degrees: u32) -> (point: &'static str)
    ensures
        point@ == cardinal(degrees as nat),
{
    if degrees <= 22 || (338 <= degrees && degrees <= 360) {
        "N"
    } else if degrees <= 67 {
        "NE"
    } else if degrees <= 112 {
        "E"
    } else if degrees <= 157 {
        "SE"
    } else if degrees <= 202 {
        "S"
    } else if degrees <= 247 {
        "SW"
    } else if degrees <= 292 {
        "W"
    } else if degrees <= 337 {
        "NW"
    } else {
        ""
    }
}

/// A pressure in inches of mercury, held as a whole number of millionths of
/// an inch.
#[derive(Clone, Copy, Debug, PartialEq, Eq, Structural)]
pub struct Inches {
    pub millionths: u64,
}

/// Hectopascals in a pressure of `hundredths` hundredths of an inch of
/// mercury, at 33.8639 hectopascals to the inch, rounded to the nearest whole
/// number, a half upward.
pub open spec fn hectopascals_in(hundredths: nat) -> nat {
    (hundredths * 338_639 + 500_000) / 1_000_000
}

/// Millionths of an inch of mercury in a pressure of `hectopascals`, at
/// 33.8639 hectopascals to the inch, rounded to the nearest whole number.
pub open spec fn inch_millionths_in(hectopascals: nat) -> nat {
    (hectopascals * 10_000_000_000 + 169_319) / 338_639
}

/// Hundredths of an inch in `millionths` millionths, rounded to the nearest
/// whole number, a half upward.
pub open spec fn rounded_hundredths(millionths: nat) -> nat {
    (millionths + 5_000) / 10_000
}

impl Inches {
    /// The pressure that a report gives as `hundredths` hundredths of an inch.
    pub fn from_hundredths(hundredths: u32) -> (pressure: Inches)
        ensures
            pressure.millionths == hundredths * 10_000,
    {
        Inches { millionths: hundredths as u64 * 10_000 }
    }

    /// The pressure of `hectopascals` hectopascals.
    pub fn from_hectopascals(hectopascals: u32) -> (pressure: Inches)
        ensures
            pressure.millionths == inch_millionths_in(hectopascals as nat),
    {
        let scaled: u128 = hectopascals as u128 * 10_000_000_000 + 169_319;
        Inches { millionths: (scaled / 338_639) as u64 }
    }

    /// The pressure in words of two decimal places.
    pub fn to_text(&self) -> (text: String)
        ensures
            text@ == hundredths_text(rounded_hundredths(self.millionths as nat)),
    {
        let hundredths: u64 = (self.millionths / 10_000) + (if self.millionths % 10_000 >= 5_000 {
            1u64
        } else {
            0u64
        });
        let mut text = String::new();
        push_hundredths(&mut text, hundredths);
        text
    }
}

/// The nearest whole number of hectopascals to a pressure of `hundredths`
/// hundredths of an inch of mercury.
pub fn hectopascals_of(hundredths: u32) -> (hectopascals: u32)
    ensures
        hectopascals == hectopascals_in(hundredths as nat),
{
    ((hundredths as u64 * 338_639 + 500_000) / 1_000_000) as u32
}

/// The conversion to inches lands on the millionth nearest to the exact
/// quotient: it is off by at most half a millionth of an inch.
pub proof fn inches_are_nearest(hectopascals: nat)
    ensures
        -169_319 <= inch_millionths_in(hectopascals) * 338_639 - hectopascals * 10_000_000_000
            <= 169_319,
{
}

/// The conversion to hectopascals lands on the whole number nearest to the
/// exact product: it is off by at most half a hectopascal.
pub proof fn hectopascals_are_nearest(hundredths: nat)
    ensures
        -500_000 <= hectopascals_in(hundredths) * 1_000_000 - hundredths * 338_639 <= 500_000,
{
}

} // verus!
