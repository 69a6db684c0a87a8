//! The decoder: one pass over the tokens of a report, section by section.

use vstd::prelude::*;
use vstd::string::StringExecFns;
use crate::clouds::clouds_at;
use crate::clouds::decode_clouds;
use crate::clouds::past_clouds;
use crate::report::MetarInfo;
use crate::report::Report;
use crate::surface::closing_at;
use crate::surface::decode_closing;
use crate::text::equals;
use crate::text::string_of;
use crate::time::read_time;
use crate::time::time_of;
use crate::time::time_text;
use crate::time::ZuluTime;
use crate::tokens::tokenize;
use crate::tokens::words;
use crate::tokens::Tokens;
use crate::visibility::decode_visibility;
use crate::visibility::is_cavok;
use crate::visibility::past_visibility;
use crate::visibility::visibility_at;
use crate::weather::decode_weather_groups;
use crate::weather::past_weather;
use crate::weather::weather_at;
use crate::wind::decode_wind;
use crate::wind::past_wind;
use crate::wind::wind_at;

verus! {

/// Whether a token names the kind of report.
pub open spec fn is_kind(token: Seq<char>) -> bool {
    token == "METAR"@ || token == "SPECI"@
}

/// Whether a token is one of the modifiers that may follow the time.
pub open spec fn is_modifier(token: Seq<char>) -> bool {
    token == "COR"@ || token == "AUTO"@ || token == "NIL"@
}

/// The index of the first token from `at` on that is no modifier.
pub open spec fn past_modifiers(tokens: Seq<Seq<char>>, at: int) -> int
    decreases tokens.len() - at,
{
    if 0 <= at < tokens.len() && is_modifier(tokens[at]) {
        past_modifiers(tokens, at + 1)
    } else {
        at
    }
}

/// The index at which the station's identifier is looked for: behind the
/// kind of report, where the first token names one.
pub open spec fn station_index(tokens: Seq<Seq<char>>) -> int {
    if tokens.len() > 0 && is_kind(tokens[0]) {
        1
    } else {
        0
    }
}

/// The index at which the time is looked for: behind the station's
/// identifier, which is one token, whatever it holds.
pub open spec fn time_index(tokens: Seq<Seq<char>>) -> int {
    if station_index(tokens) < tokens.len() {
        station_index(tokens) + 1
    } else {
        station_index(tokens)
    }
}

/// The time of the observation, where the token at the time's index gives
/// one.
pub open spec fn time_at(tokens: Seq<Seq<char>>) -> Option<ZuluTime> {
    if time_index(tokens) < tokens.len() {
        time_of(tokens[time_index(tokens)])
    } else {
        None
    }
}

/// The index at which the wind is looked for: behind the time, where one was
/// read, and behind the modifiers that follow.
pub open spec fn wind_index(tokens: Seq<Seq<char>>) -> int {
    if time_at(tokens) is Some {
        past_modifiers(tokens, time_index(tokens) + 1)
    } else {
        past_modifiers(tokens, time_index(tokens))
    }
}

/// The index at which visibility, weather and clouds begin: behind the wind.
pub open spec fn sky_index(tokens: Seq<Seq<char>>) -> int {
    past_wind(tokens, wind_index(tokens))
}

/// Whether the report says that ceiling and visibility are fine, in the token
/// behind the wind.
pub open spec fn has_cavok(tokens: Seq<Seq<char>>) -> bool {
    sky_index(tokens) < tokens.len() && is_cavok(tokens[sky_index(tokens)])
}

/// The index at which weather groups are looked for: behind the visibility.
pub open spec fn weather_index(tokens: Seq<Seq<char>>) -> int {
    past_visibility(tokens, sky_index(tokens))
}

/// The index at which cloud groups are looked for: behind the weather.
pub open spec fn clouds_index(tokens: Seq<Seq<char>>) -> int {
    past_weather(tokens, weather_index(tokens))
}

/// The index at which the closing part of the report begins: behind the token
/// that says that ceiling and visibility are fine or, without one, behind
/// visibility, weather and clouds.
pub open spec fn closing_index(tokens: Seq<Seq<char>>) -> int {
    if has_cavok(tokens) {
        sky_index(tokens) + 1
    } else {
        past_clouds(tokens, clouds_index(tokens))
    }
}

/// The report as it stands before its closing part is read. Where ceiling
/// and visibility are said to be fine, visibility, weather and clouds are the
/// three fixed texts, and no token is read for them.
pub open spec fn body_of(tokens: Seq<Seq<char>>, raw: Seq<char>, hint: Seq<char>) -> Report {
    Report {
        station: if station_index(tokens) < tokens.len() {
            tokens[station_index(tokens)]
        } else {
            hint
        },
        date_time: match time_at(tokens) {
            Some(time) => time_text(time),
            None => Seq::empty(),
        },
        zulu_day: match time_at(tokens) {
            Some(time) => Some(time.day),
            None => None,
        },
        zulu_hour: match time_at(tokens) {
            Some(time) => Some(time.hour),
            None => None,
        },
        zulu_minute: match time_at(tokens) {
            Some(time) => Some(time.minute),
            None => None,
        },
        wind: wind_at(tokens, wind_index(tokens)),
        visibility: if has_cavok(tokens) {
            "10 kilometers or more"@
        } else {
            visibility_at(tokens, sky_index(tokens))
        },
        weather: if has_cavok(tokens) {
            "None significant"@
        } else {
            weather_at(tokens, weather_index(tokens))
        },
        clouds: if has_cavok(tokens) {
            "No clouds below 5,000 feet"@
        } else {
            clouds_at(tokens, clouds_index(tokens))
        },
        raw: raw,
        ..Report::blank()
    }
}

/// The report that the tokens of the text `raw` give, for a station that the
/// caller names as `hint`. Without tokens the report holds the name and the
/// text, and nothing else.
pub open spec fn decoded(tokens: Seq<Seq<char>>, raw: Seq<char>, hint: Seq<char>) -> Report {
    if tokens.len() == 0 {
        Report { station: hint, raw: raw, ..Report::blank() }
    } else {
        closing_at(tokens, closing_index(tokens), body_of(tokens, raw, hint))
    }
}

/// The decoded report of the text `raw`, for a station that the caller names
/// as `hint`.
pub open spec fn report_of(raw: Seq<char>, hint: Seq<char>) -> Report {
    decoded(words(raw), raw, hint)
}

/// The index of the first token from `at` on that is no modifier.
fn skip_modifiers(tokens: &Tokens, at: usize) -> (next: usize)
    requires
        at <= tokens@.len(),
    ensures
        next == past_modifiers(tokens@, at as int),
        at <= next <= tokens@.len(),
{
    let mut i: usize = at;
    while i < tokens.len() && (equals(tokens.word(i), "COR") || equals(tokens.word(i), "AUTO")
        || equals(tokens.word(i), "NIL"))
        invariant
            at <= i <= tokens@.len(),
            past_modifiers(tokens@, at as int) == past_modifiers(tokens@, i as int),
        decreases tokens@.len() - i,
    {
        i += 1;
    }
    i
}

/// Decodes the tokens of a report. `raw` is the text that they were taken
/// from, and `hint` names the station for the case that no token does.
pub fn decode_tokens(tokens: &Tokens, raw: &str, hint: &str) -> (info: MetarInfo)
    ensures
        info@ == decoded(tokens@, raw@, hint@),
{
    let mut info = MetarInfo::default();
    info.station = String::from_str(hint);
    info.raw = String::from_str(raw);
    if tokens.len() == 0 {
        return info;
    }
    let mut i: usize = 0;
    if equals(tokens.word(0), "METAR") || equals(tokens.word(0), "SPECI") {
        i = 1;
    }
    if i < tokens.len() {
        info.station = string_of(tokens.word(i));
        i += 1;
    }
    if i < tokens.len() {
        if let Some(time) = read_time(tokens.word(i)) {
            info.date_time = time.to_text();
            info.zulu_day = Some(time.day);
            info.zulu_hour = Some(time.hour);
            info.zulu_minute = Some(time.minute);
            i += 1;
        }
    }
    i = skip_modifiers(tokens, i);
    let (wind, next) = decode_wind(tokens, i);
    info.wind = wind;
    i = next;
    if i < tokens.len() && equals(tokens.word(i), "CAVOK") {
        info.visibility = String::from_str("10 kilometers or more");
        info.weather = String::from_str("None significant");
        info.clouds = String::from_str("No clouds below 5,000 feet");
        i += 1;
    } else {
        let (visibility, next) = decode_visibility(tokens, i);
        info.visibility = visibility;
        let (weather, next) = decode_weather_groups(tokens, next);
        info.weather = weather;
        let (clouds, next) = decode_clouds(tokens, next);
        info.clouds = clouds;
        i = next;
    }
    decode_closing(tokens, i, &mut info);
    info
}

/// Decodes a raw report into its sections. `icao` names the station for the
/// case that the report itself does not.
pub fn parse_metar(metar: &str, icao: &str) -> (info: MetarInfo)
    ensures
        info@ == report_of(metar@, icao@),
{
    let tokens = tokenize(metar);
    decode_tokens(&tokens, metar, icao)
}

} // verus!
