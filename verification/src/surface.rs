//! Temperature, dew point and altimeter setting, and the walk over the
//! closing part of a report that finds them and the remarks.

use vstd::prelude::*;
use vstd::string::StringExecFns;
use crate::numbers::decimal;
use crate::numbers::hundredths_text;
use crate::numbers::parse_signed;
use crate::numbers::parse_unsigned;
use crate::numbers::push_decimal;
use crate::numbers::push_signed;
use crate::numbers::short_digits_are_small;
use crate::numbers::signed;
use crate::numbers::signed_body;
use crate::numbers::signed_decimal;
use crate::numbers::unsigned;
use crate::remarks::decode_remarks;
use crate::remarks::remarks_at;
use crate::report::MetarInfo;
use crate::report::Report;
use crate::text::begins;
use crate::text::halves;
use crate::text::holds;
use crate::text::rest;
use crate::text::split_halves;
use crate::text::starts_with;
use crate::tokens::Tokens;
use crate::units::celsius_to_fahrenheit;
use crate::units::fahrenheit_of;
use crate::units::hectopascals_in;
use crate::units::hectopascals_of;
use crate::units::inch_millionths_in;
use crate::units::Inches;

verus! {

/// Whether a token is taken for the group of temperature and dew point: it
/// holds a slash and has seven characters at most.
pub open spec fn is_fraction(token: Seq<char>) -> bool {
    token.contains('/') && token.len() <= 7
}

/// The whole degrees Celsius that one side of the group gives. A leading `M`
/// makes the number that follows negative; on the side of the temperature a
/// leading `T` is passed over.
pub open spec fn degrees_of(side: Seq<char>, is_temperature: bool) -> Option<int> {
    if side.len() > 0 && side[0] == 'M' {
        match signed(side.skip(1)) {
            Some(degrees) => Some(-(degrees as int)),
            None => None,
        }
    } else if is_temperature && side.len() > 0 && side[0] == 'T' {
        match signed(side.skip(1)) {
            Some(degrees) => Some(degrees as int),
            None => None,
        }
    } else {
        match signed(side) {
            Some(degrees) => Some(degrees as int),
            None => None,
        }
    }
}

/// Temperature and dew point in whole degrees Celsius, as the group gives
/// them on either side of its one slash.
pub open spec fn temperatures_of(token: Seq<char>) -> Option<(int, int)> {
    if is_fraction(token) {
        match halves(token) {
            Some((left, right)) => match (degrees_of(left, true), degrees_of(right, false)) {
                (Some(temperature), Some(dew_point)) => Some((temperature, dew_point)),
                _ => None,
            },
            None => None,
        }
    } else {
        None
    }
}

/// A temperature in words: in degrees Celsius and, in brackets, in degrees
/// Fahrenheit.
pub open spec fn degrees_text(celsius: int) -> Seq<char> {
    signed_decimal(celsius) + "\u{b0}C ("@ + signed_decimal(fahrenheit_of(celsius)) + "\u{b0}F)"@
}

/// An altimeter setting.
pub struct Altimeter {
    /// The setting in the unit of the report, in words.
    pub text: Seq<char>,
    /// The setting in whole hectopascals.
    pub hectopascals: u32,
    /// The setting in inches of mercury.
    pub inches: Inches,
    /// The unit of the report: "inches" or "hpa".
    pub unit: Seq<char>,
}

/// The altimeter setting that a token gives. The token has five characters;
/// after an `A` the four that follow are a number of hundredths of an inch of
/// mercury, after a `Q` a number of hectopascals, and the setting is
/// converted to the other unit.
pub open spec fn altimeter_of(token: Seq<char>) -> Option<Altimeter> {
    if starts_with(token, "A"@) && token.len() == 5 {
        match unsigned(token.skip(1)) {
            Some(hundredths) => Some(
                Altimeter {
                    text: hundredths_text(hundredths as nat) + " inches of mercury"@,
                    hectopascals: hectopascals_in(hundredths as nat) as u32,
                    inches: Inches { millionths: (hundredths * 10_000) as u64 },
                    unit: "inches"@,
                },
            ),
            None => None,
        }
    } else if starts_with(token, "Q"@) && token.len() == 5 {
        match unsigned(token.skip(1)) {
            Some(hectopascals) => Some(
                Altimeter {
                    text: decimal(hectopascals as nat) + " hectopascals"@,
                    hectopascals,
                    inches: Inches { millionths: inch_millionths_in(hectopascals as nat) as u64 },
                    unit: "hpa"@,
                },
            ),
            None => None,
        }
    } else {
        None
    }
}

/// The report with temperature and dew point set.
pub open spec fn with_temperatures(report: Report, temperature: int, dew_point: int) -> Report {
    Report { temperature: degrees_text(temperature), dewpoint: degrees_text(dew_point), ..report }
}

/// The report with the altimeter setting set.
pub open spec fn with_altimeter(report: Report, setting: Altimeter) -> Report {
    Report {
        altimeter: setting.text,
        altimeter_hpa: Some(setting.hectopascals),
        altimeter_inches: Some(setting.inches),
        altimeter_default_unit: setting.unit,
        ..report
    }
}

/// The report after one token of its closing part that does not open the
/// remarks: a group of temperature and dew point, or an altimeter setting,
/// sets its fields where it can be read; any other token changes nothing.
pub open spec fn after_token(report: Report, token: Seq<char>) -> Report {
    if is_fraction(token) {
        match temperatures_of(token) {
            Some((temperature, dew_point)) => with_temperatures(report, temperature, dew_point),
            None => report,
        }
    } else {
        match altimeter_of(token) {
            Some(setting) => with_altimeter(report, setting),
            None => report,
        }
    }
}

/// Whether a token opens the remarks: it begins with `RMK` and is not taken
/// for a group of temperature and dew point.
pub open spec fn opens_remarks(token: Seq<char>) -> bool {
    !is_fraction(token) && starts_with(token, "RMK"@)
}

/// The report after the closing part that begins at index `at`: token by
/// token up to the one that opens the remarks, which are read to their end,
/// or to the end of the report.
pub open spec fn closing_at(tokens: Seq<Seq<char>>, at: int, report: Report) -> Report
    decreases tokens.len() - at,
{
    if 0 <= at < tokens.len() {
        if opens_remarks(tokens[at]) {
            Report { remarks: remarks_at(tokens, at + 1), ..report }
        } else {
            closing_at(tokens, at + 1, after_token(report, tokens[at]))
        }
    } else {
        report
    }
}

/// A number written in six characters at most is below a million either way.
pub proof fn short_numbers_are_small(s: Seq<char>)
    requires
        s.len() <= 6,
        signed(s) is Some,
    ensures
        -999_999 <= signed(s)->0 <= 999_999,
{
    let body = signed_body(s);
    short_digits_are_small(body);
}

/// Reads the whole degrees Celsius that one side of the group gives.
fn read_degrees(side: &[char], is_temperature: bool) -> (degrees: Option<i32>)
    requires
        side@.len() <= 6,
    ensures
        degrees is Some <==> degrees_of(side@, is_temperature) is Some,
        degrees matches Some(d) ==> degrees_of(side@, is_temperature) == Some(d as int),
        degrees matches Some(d) ==> -999_999 <= d <= 999_999,
{
    if side.len() > 0 && side[0] == 'M' {
        let tail = rest(side, 1);
        match parse_signed(tail) {
            Some(degrees) => {
                proof {
                    short_numbers_are_small(tail@);
                }
                Some(-degrees)
            },
            None => None,
        }
    } else if is_temperature && side.len() > 0 && side[0] == 'T' {
        let tail = rest(side, 1);
        let degrees = parse_signed(tail);
        proof {
            if degrees is Some {
                short_numbers_are_small(tail@);
            }
        }
        degrees
    } else {
        let degrees = parse_signed(side);
        proof {
            if degrees is Some {
                short_numbers_are_small(side@);
            }
        }
        degrees
    }
}

/// Reads temperature and dew point, in whole degrees Celsius, from a token.
pub fn read_temperatures(token: &[char]) -> (pair: Option<(i32, i32)>)
    ensures
        pair is Some <==> temperatures_of(token@) is Some,
        pair matches Some((t, d)) ==> temperatures_of(token@) == Some((t as int, d as int)),
        pair matches Some((t, d)) ==> -999_999 <= t <= 999_999 && -999_999 <= d <= 999_999,
{
    if !(holds(token, '/') && token.len() <= 7) {
        return None;
    }
    match split_halves(token) {
        Some((left, right)) => {
            match (read_degrees(left, true), read_degrees(right, false)) {
                (Some(temperature), Some(dew_point)) => Some((temperature, dew_point)),
                _ => None,
            }
        },
        None => None,
    }
}

/// A temperature in words.
pub fn describe_degrees(celsius: i32) -> (text: String)
    requires
        i32::MIN <= fahrenheit_of(celsius as int) <= i32::MAX,
    ensures
        text@ == degrees_text(celsius as int),
{
    let fahrenheit = celsius_to_fahrenheit(celsius);
    let mut text = String::new();
    push_signed(&mut text, celsius as i64);
    text.append("\u{b0}C (");
    push_signed(&mut text, fahrenheit as i64);
    text.append("\u{b0}F)");
    text
}

/// An altimeter setting, as text and numbers to keep.
pub struct AltimeterSetting {
    /// The setting in the unit of the report, in words.
    pub text: String,
    /// The setting in whole hectopascals.
    pub hectopascals: u32,
    /// The setting in inches of mercury.
    pub inches: Inches,
    /// The unit of the report: "inches" or "hpa".
    pub unit: String,
}

impl View for AltimeterSetting {
    type V = Altimeter;

    open spec fn view(&self) -> Altimeter {
        Altimeter {
            text: self.text@,
            hectopascals: self.hectopascals,
            inches: self.inches,
            unit: self.unit@,
        }
    }
}

/// Reads the altimeter setting from a token.
pub fn read_altimeter(token: &[char]) -> (setting: Option<AltimeterSetting>)
    ensures
        setting is Some <==> altimeter_of(token@) is Some,
        setting matches Some(s) ==> altimeter_of(token@) == Some(s@),
{
    if begins(token, "A") && token.len() == 5 {
        let tail = rest(token, 1);
        match parse_unsigned(tail) {
            Some(hundredths) => {
                let inches = Inches::from_hundredths(hundredths);
                let mut text = inches.to_text();
                text.append(" inches of mercury");
                Some(
                    AltimeterSetting {
                        text,
                        hectopascals: hectopascals_of(hundredths),
                        inches,
                        unit: String::from_str("inches"),
                    },
                )
            },
            None => None,
        }
    } else if begins(token, "Q") && token.len() == 5 {
        let tail = rest(token, 1);
        match parse_unsigned(tail) {
            Some(hectopascals) => {
                let mut text = String::new();
                push_decimal(&mut text, hectopascals as u64);
                text.append(" hectopascals");
                Some(
                    AltimeterSetting {
                        text,
                        hectopascals,
                        inches: Inches::from_hectopascals(hectopascals),
                        unit: String::from_str("hpa"),
                    },
                )
            },
            None => None,
        }
    } else {
        None
    }
}

/// Reads the closing part of a report from index `at` on into `info`:
/// temperature and dew point, altimeter setting and remarks.
pub fn decode_closing(tokens: &Tokens, at: usize, info: &mut MetarInfo)
    ensures
        final(info)@ == closing_at(tokens@, at as int, old(info)@),
{
    let mut i: usize = at;
    while i < tokens.len()
        invariant
            at <= i,
            i <= tokens@.len() || i == at,
            closing_at(tokens@, at as int, old(info)@) == closing_at(tokens@, i as int, info@),
        decreases tokens@.len() - i,
    {
        let token = tokens.word(i);
        if holds(token, '/') && token.len() <= 7 {
            if let Some((temperature, dew_point)) = read_temperatures(token) {
                info.temperature = describe_degrees(temperature);
                info.dewpoint = describe_degrees(dew_point);
            }
            i += 1;
        } else if begins(token, "RMK") {
            info.remarks = decode_remarks(tokens, i + 1);
            return;
        } else {
            if let Some(setting) = read_altimeter(token) {
                info.altimeter = setting.text;
                info.altimeter_hpa = Some(setting.hectopascals);
                info.altimeter_inches = Some(setting.inches);
                info.altimeter_default_unit = setting.unit;
            }
            i += 1;
        }
    }
}

} // verus!
