//! What the page of results shows for a decoded report.

use vstd::prelude::*;
use vstd::string::StringExecFns;
use crate::numbers::decimal;
use crate::numbers::hundredths_text;
use crate::numbers::push_decimal;
use crate::report::MetarInfo;
use crate::report::Report;
use crate::units::rounded_hundredths;
use crate::units::Inches;

verus! {

/// The style class that marks a value as missing: " empty" for an empty
/// value, nothing for any other.
pub open spec fn stat_class(value: Seq<char>) -> Seq<char> {
    if value.len() == 0 {
        " empty"@
    } else {
        ""@
    }
}

/// What is shown for a value: the value itself, or `default` where it is
/// empty.
pub open spec fn stat_shown(value: Seq<char>, default: Seq<char>) -> Seq<char> {
    if value.len() == 0 {
        default
    } else {
        value
    }
}

/// Prepares a value for display: the style class that goes with it, and the
/// text to show, which is `default` where the value is empty.
pub fn format_stat_value(value: &str, default: &str) -> (shown: (String, String))
    ensures
        shown.0@ == stat_class(value@),
        shown.1@ == stat_shown(value@, default@),
{
    if value.is_empty() {
        (String::from_str(" empty"), String::from_str(default))
    } else {
        (String::from_str(""), String::from_str(value))
    }
}

/// One value of the page: its style class and its text.
pub struct Stat {
    pub class: String,
    pub value: String,
}

/// What one value of the page holds.
pub struct StatView {
    pub class: Seq<char>,
    pub value: Seq<char>,
}

impl View for Stat {
    type V = StatView;

    open spec fn view(&self) -> StatView {
        StatView { class: self.class@, value: self.value@ }
    }
}

/// The value of the page for a text of the report.
pub open spec fn stat_of(value: Seq<char>, default: Seq<char>) -> StatView {
    StatView { class: stat_class(value), value: stat_shown(value, default) }
}

/// A number as the page's script reads it: in decimal notation, or "null"
/// where there is none.
pub open spec fn number_or_null(number: Option<u32>) -> Seq<char> {
    match number {
        Some(n) => decimal(n as nat),
        None => "null"@,
    }
}

/// A pressure in inches as the page's script reads it: with two decimal
/// places, or "null" where there is none.
pub open spec fn inches_or_null(pressure: Option<Inches>) -> Seq<char> {
    match pressure {
        Some(inches) => hundredths_text(rounded_hundredths(inches.millionths as nat)),
        None => "null"@,
    }
}

/// The values that the page of results shows for a report.
pub struct ResultsPage {
    pub station: String,
    pub date_time: Stat,
    pub wind: Stat,
    pub visibility: Stat,
    pub weather: Stat,
    pub clouds: Stat,
    pub temperature: Stat,
    pub dewpoint: Stat,
    pub altimeter: Stat,
    pub remarks: Stat,
    pub raw: String,
    pub altimeter_hpa: String,
    pub altimeter_inches: String,
    pub altimeter_unit: String,
    pub zulu_day: String,
    pub zulu_hour: String,
    pub zulu_minute: String,
}

/// What the values of a page hold.
pub struct PageView {
    pub station: Seq<char>,
    pub date_time: StatView,
    pub wind: StatView,
    pub visibility: StatView,
    pub weather: StatView,
    pub clouds: StatView,
    pub temperature: StatView,
    pub dewpoint: StatView,
    pub altimeter: StatView,
    pub remarks: StatView,
    pub raw: Seq<char>,
    pub altimeter_hpa: Seq<char>,
    pub altimeter_inches: Seq<char>,
    pub altimeter_unit: Seq<char>,
    pub zulu_day: Seq<char>,
    pub zulu_hour: Seq<char>,
    pub zulu_minute: Seq<char>,
}

impl View for ResultsPage {
    type V = PageView;

    open spec fn view(&self) -> PageView {
        PageView {
            station: self.station@,
            date_time: self.date_time@,
            wind: self.wind@,
            visibility: self.visibility@,
            weather: self.weather@,
            clouds: self.clouds@,
            temperature: self.temperature@,
            dewpoint: self.dewpoint@,
            altimeter: self.altimeter@,
            remarks: self.remarks@,
            raw: self.raw@,
            altimeter_hpa: self.altimeter_hpa@,
            altimeter_inches: self.altimeter_inches@,
            altimeter_unit: self.altimeter_unit@,
            zulu_day: self.zulu_day@,
            zulu_hour: self.zulu_hour@,
            zulu_minute: self.zulu_minute@,
        }
    }
}

/// The values that the page of results shows for a report: each text of the
/// report, or "N/A" ("None" for the remarks) where it is empty; each number,
/// or "null" where there is none; and the unit of the altimeter setting,
/// "hpa" where the report names none.
pub open spec fn page_of(report: Report) -> PageView {
    PageView {
        station: report.station,
        date_time: stat_of(report.date_time, "N/A"@),
        wind: stat_of(report.wind, "N/A"@),
        visibility: stat_of(report.visibility, "N/A"@),
        weather: stat_of(report.weather, "N/A"@),
        clouds: stat_of(report.clouds, "N/A"@),
        temperature: stat_of(report.temperature, "N/A"@),
        dewpoint: stat_of(report.dewpoint, "N/A"@),
        altimeter: stat_of(report.altimeter, "N/A"@),
        remarks: stat_of(report.remarks, "None"@),
        raw: report.raw,
        altimeter_hpa: number_or_null(report.altimeter_hpa),
        altimeter_inches: inches_or_null(report.altimeter_inches),
        altimeter_unit: stat_shown(report.altimeter_default_unit, "hpa"@),
        zulu_day: number_or_null(report.zulu_day),
        zulu_hour: number_or_null(report.zulu_hour),
        zulu_minute: number_or_null(report.zulu_minute),
    }
}

/// The value of the page for a text of the report.
fn stat(value: &String, default: &str) -> (shown: Stat)
    ensures
        shown@ == stat_of(value@, default@),
{
    let (class, value) = format_stat_value(value.as_str(), default);
    Stat { class, value }
}

/// A number as the page's script reads it.
fn number_text(number: Option<u32>) -> (text: String)
    ensures
        text@ == number_or_null(number),
{
    match number {
        Some(n) => {
            let mut text = String::new();
            push_decimal(&mut text, n as u64);
            text
        },
        None => String::from_str("null"),
    }
}

/// Gathers the values that the page of results shows for a report.
pub fn results_page(info: &MetarInfo) -> (page: ResultsPage)
    ensures
        page@ == page_of(info@),
{
    ResultsPage {
        station: info.station.clone(),
        date_time: stat(&info.date_time, "N/A"),
        wind: stat(&info.wind, "N/A"),
        visibility: stat(&info.visibility, "N/A"),
        weather: stat(&info.weather, "N/A"),
        clouds: stat(&info.clouds, "N/A"),
        temperature: stat(&info.temperature, "N/A"),
        dewpoint: stat(&info.dewpoint, "N/A"),
        altimeter: stat(&info.altimeter, "N/A"),
        remarks: stat(&info.remarks, "None"),
        raw: info.raw.clone(),
        altimeter_hpa: number_text(info.altimeter_hpa),
        altimeter_inches: match info.altimeter_inches {
            Some(inches) => inches.to_text(),
            None => String::from_str("null"),
        },
        altimeter_unit: if info.altimeter_default_unit.as_str().is_empty() {
            String::from_str("hpa")
        } else {
            info.altimeter_default_unit.clone()
        },
        zulu_day: number_text(info.zulu_day),
        zulu_hour: number_text(info.zulu_hour),
        zulu_minute: number_text(info.zulu_minute),
    }
}

} // verus!
