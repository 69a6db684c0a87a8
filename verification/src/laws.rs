//! What holds of every decoded report.

use vstd::prelude::*;
use crate::clouds::past_clouds;
use crate::decode::body_of;
use crate::decode::closing_index;
use crate::decode::clouds_index;
use crate::decode::has_cavok;
use crate::decode::parse_metar;
use crate::decode::past_modifiers;
use crate::decode::report_of;
use crate::decode::sky_index;
use crate::decode::station_index;
use crate::decode::time_at;
use crate::decode::time_index;
use crate::decode::weather_index;
use crate::decode::wind_index;
use crate::numbers::decimal_denotes_its_number;
use crate::numbers::unsigned;
use crate::report::MetarInfo;
use crate::report::Report;
use crate::surface::after_token;
use crate::surface::altimeter_of;
use crate::surface::closing_at;
use crate::surface::opens_remarks;
use crate::text::starts_with;
use crate::tokens::words;
use crate::units::fahrenheit_of;
use crate::visibility::is_cavok;
use crate::weather::past_weather;

verus! {

/// Decoding is a function of its two texts: whatever two calls on the same
/// texts return holds the same, field for field.
pub proof fn decoding_is_a_function(raw: &str, hint: &str, first: MetarInfo, second: MetarInfo)
    requires
        call_ensures(parse_metar, (raw, hint), first),
        call_ensures(parse_metar, (raw, hint), second),
    ensures
        first@ == second@,
        first@ == report_of(raw@, hint@),
{
}

/// Decoding asks nothing of its two texts: every call is allowed.
pub proof fn decoding_is_total(raw: &str, hint: &str)
    ensures
        call_requires(parse_metar, (raw, hint)),
{
}

/// Passing over modifiers moves the cursor forward, and not past the end.
pub proof fn modifiers_only_advance(tokens: Seq<Seq<char>>, at: int)
    requires
        0 <= at <= tokens.len(),
    ensures
        at <= past_modifiers(tokens, at) <= tokens.len(),
    decreases tokens.len() - at,
{
    if at < tokens.len() {
        modifiers_only_advance(tokens, at + 1);
    }
}

/// Reading weather groups moves the cursor forward, and not past the end.
pub proof fn weather_only_advances(tokens: Seq<Seq<char>>, at: int)
    requires
        0 <= at <= tokens.len(),
    ensures
        at <= past_weather(tokens, at) <= tokens.len(),
    decreases tokens.len() - at,
{
    if at < tokens.len() {
        weather_only_advances(tokens, at + 1);
    }
}

/// Reading cloud groups moves the cursor forward, and not past the end.
pub proof fn clouds_only_advance(tokens: Seq<Seq<char>>, at: int)
    requires
        0 <= at <= tokens.len(),
    ensures
        at <= past_clouds(tokens, at) <= tokens.len(),
    decreases tokens.len() - at,
{
    if at < tokens.len() {
        clouds_only_advance(tokens, at + 1);
    }
}

/// The cursor never moves back and never leaves the tokens: the indices at
/// which the sections are looked for follow each other in the order of the
/// sections, from the first token to the end at most.
pub proof fn cursor_only_advances(tokens: Seq<Seq<char>>)
    ensures
        0 <= station_index(tokens) <= time_index(tokens) <= wind_index(tokens) <= sky_index(tokens),
        sky_index(tokens) <= weather_index(tokens) <= clouds_index(tokens) <= tokens.len(),
        sky_index(tokens) <= closing_index(tokens) <= tokens.len(),
        !has_cavok(tokens) ==> clouds_index(tokens) <= closing_index(tokens),
{
    if time_at(tokens) is Some {
        modifiers_only_advance(tokens, time_index(tokens) + 1);
    } else {
        modifiers_only_advance(tokens, time_index(tokens));
    }
    weather_only_advances(tokens, weather_index(tokens));
    clouds_only_advance(tokens, clouds_index(tokens));
}

/// The closing part of a report changes no field of its body: station, time,
/// wind, visibility, weather, clouds and the raw text stay as they were.
pub proof fn closing_keeps_body(tokens: Seq<Seq<char>>, at: int, report: Report)
    ensures
        closing_at(tokens, at, report).station == report.station,
        closing_at(tokens, at, report).date_time == report.date_time,
        closing_at(tokens, at, report).zulu_day == report.zulu_day,
        closing_at(tokens, at, report).zulu_hour == report.zulu_hour,
        closing_at(tokens, at, report).zulu_minute == report.zulu_minute,
        closing_at(tokens, at, report).wind == report.wind,
        closing_at(tokens, at, report).visibility == report.visibility,
        closing_at(tokens, at, report).weather == report.weather,
        closing_at(tokens, at, report).clouds == report.clouds,
        closing_at(tokens, at, report).raw == report.raw,
    decreases tokens.len() - at,
{
    if 0 <= at < tokens.len() && !opens_remarks(tokens[at]) {
        closing_keeps_body(tokens, at + 1, after_token(report, tokens[at]));
    }
}

/// The token that says that ceiling and visibility are fine is no wind
/// group: where it stands at the index at which the wind is looked for, it
/// is found behind the wind.
pub proof fn cavok_is_no_wind(tokens: Seq<Seq<char>>)
    requires
        0 <= wind_index(tokens) < tokens.len(),
        is_cavok(tokens[wind_index(tokens)]),
    ensures
        has_cavok(tokens),
{
    reveal_strlit("CAVOK");
}

/// Where the token behind the wind, or the token behind time and modifiers,
/// says that ceiling and visibility are fine, visibility, weather and clouds
/// are the three fixed texts, whatever tokens follow.
pub proof fn cavok_fixes_three_fields(raw: Seq<char>, hint: Seq<char>)
    requires
        has_cavok(words(raw)) || (0 <= wind_index(words(raw)) < words(raw).len() && is_cavok(
            words(raw)[wind_index(words(raw))],
        )),
    ensures
        report_of(raw, hint).visibility == "10 kilometers or more"@,
        report_of(raw, hint).weather == "None significant"@,
        report_of(raw, hint).clouds == "No clouds below 5,000 feet"@,
{
    let tokens = words(raw);
    if !has_cavok(tokens) {
        cavok_is_no_wind(tokens);
    }
    closing_keeps_body(tokens, closing_index(tokens), body_of(tokens, raw, hint));
}

/// An altimeter setting read from a group in inches holds the number of the
/// group as hundredths of an inch, and in hectopascals the whole number
/// nearest to that pressure.
pub proof fn inches_group_agrees(token: Seq<char>, hundredths: u32)
    requires
        starts_with(token, "A"@),
        token.len() == 5,
        unsigned(token.skip(1)) == Some(hundredths),
    ensures
        altimeter_of(token) is Some,
        altimeter_of(token)->0.inches.millionths == hundredths * 10_000,
        -500_000 <= altimeter_of(token)->0.hectopascals * 1_000_000 - hundredths * 338_639
            <= 500_000,
        altimeter_of(token)->0.unit == "inches"@,
{
}

/// An altimeter setting read from a group in hectopascals holds the number
/// of the group as hectopascals, and in inches that pressure to the nearest
/// millionth of an inch.
pub proof fn hectopascals_group_agrees(token: Seq<char>, hectopascals: u32)
    requires
        starts_with(token, "Q"@),
        token.len() == 5,
        unsigned(token.skip(1)) == Some(hectopascals),
    ensures
        altimeter_of(token) is Some,
        altimeter_of(token)->0.hectopascals == hectopascals,
        -169_319 <= altimeter_of(token)->0.inches.millionths * 338_639 - hectopascals
            * 10_000_000_000 <= 169_319,
        altimeter_of(token)->0.unit == "hpa"@,
{
    reveal_strlit("A");
    reveal_strlit("Q");
    if starts_with(token, "A"@) {
        assert(token.subrange(0, 1)[0] == 'Q');
    }
}

/// Degrees Fahrenheit are nine fifths of the degrees Celsius, rounded toward
/// zero, plus thirty-two: five times the part above thirty-two is no further
/// from zero than nine times the degrees Celsius, and less than five short
/// of it.
pub proof fn fahrenheit_rounds_toward_zero(celsius: int)
    ensures
        celsius >= 0 ==> 0 <= 9 * celsius - 5 * (fahrenheit_of(celsius) - 32) < 5,
        celsius <= 0 ==> 0 <= 5 * (fahrenheit_of(celsius) - 32) - 9 * celsius < 5,
{
}

/// The closing part of a report keeps its numbers in step with its texts, and
/// its altimeter setting the same pressure in both units.
pub proof fn closing_keeps_consistency(tokens: Seq<Seq<char>>, at: int, report: Report)
    requires
        report.is_consistent(),
        report.units_agree(),
    ensures
        closing_at(tokens, at, report).is_consistent(),
        closing_at(tokens, at, report).units_agree(),
    decreases tokens.len() - at,
{
    if 0 <= at < tokens.len() && !opens_remarks(tokens[at]) {
        let token = tokens[at];
        let next = after_token(report, token);
        if let Some(setting) = altimeter_of(token) {
            reveal_strlit("inches");
            reveal_strlit("hpa");
            let number = unsigned(token.skip(1))->0;
            decimal_denotes_its_number(number as nat);
            decimal_denotes_its_number(number as nat / 100);
        }
        closing_keeps_consistency(tokens, at + 1, next);
    }
}

/// In every decoded report the numbers go with the texts: the parts of the
/// time are there exactly where the time is given in words, the altimeter
/// setting in both units exactly where it is given in words, and the two
/// units give the same pressure.
pub proof fn reports_are_consistent(raw: Seq<char>, hint: Seq<char>)
    ensures
        report_of(raw, hint).is_consistent(),
        report_of(raw, hint).units_agree(),
{
    let tokens = words(raw);
    if tokens.len() > 0 {
        let body = body_of(tokens, raw, hint);
        if let Some(time) = time_at(tokens) {
            decimal_denotes_its_number(time.day as nat);
        }
        closing_keeps_consistency(tokens, closing_index(tokens), body);
    }
}

} // verus!
