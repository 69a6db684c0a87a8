//! The decoded report.

use vstd::prelude::*;
use crate::units::hectopascals_in;
use crate::units::inch_millionths_in;
use crate::units::Inches;

verus! {

/// A decoded report: one field for each section. A text that is empty, or a
/// number that is `None`, says that the section was not found.
#[derive(Clone, Debug, PartialEq, Eq)]
pub struct MetarInfo {
    /// The station's identifier.
    pub station: String,
    /// The time of the observation, in words.
    pub date_time: String,
    /// The day of the month of the observation.
    pub zulu_day: Option<u32>,
    /// The hour of the observation, in universal time.
    pub zulu_hour: Option<u32>,
    /// The minute of the observation.
    pub zulu_minute: Option<u32>,
    /// Direction, speed, gusts and variation of the wind, in words.
    pub wind: String,
    /// The visibility, in words.
    pub visibility: String,
    /// The present weather, in words.
    pub weather: String,
    /// The cloud layers, in words.
    pub clouds: String,
    /// The temperature in both scales, in words.
    pub temperature: String,
    /// The dew point in both scales, in words.
    pub dewpoint: String,
    /// The altimeter setting in the unit of the report, in words.
    pub altimeter: String,
    /// The altimeter setting in whole hectopascals.
    pub altimeter_hpa: Option<u32>,
    /// The altimeter setting in inches of mercury.
    pub altimeter_inches: Option<Inches>,
    /// The unit in which the report gave the altimeter setting: "inches" or
    /// "hpa".
    pub altimeter_default_unit: String,
    /// The remarks that were understood, in words.
    pub remarks: String,
    /// The report as it was received.
    pub raw: String,
}

/// What a decoded report holds.
pub struct Report {
    pub station: Seq<char>,
    pub date_time: Seq<char>,
    pub zulu_day: Option<u32>,
    pub zulu_hour: Option<u32>,
    pub zulu_minute: Option<u32>,
    pub wind: Seq<char>,
    pub visibility: Seq<char>,
    pub weather: Seq<char>,
    pub clouds: Seq<char>,
    pub temperature: Seq<char>,
    pub dewpoint: Seq<char>,
    pub altimeter: Seq<char>,
    pub altimeter_hpa: Option<u32>,
    pub altimeter_inches: Option<Inches>,
    pub altimeter_default_unit: Seq<char>,
    pub remarks: Seq<char>,
    pub raw: Seq<char>,
}

impl Report {
    /// The report in which no section was found.
    pub open spec fn blank() -> Report {
        Report {
            station: Seq::empty(),
            date_time: Seq::empty(),
            zulu_day: None,
            zulu_hour: None,
            zulu_minute: None,
            wind: Seq::empty(),
            visibility: Seq::empty(),
            weather: Seq::empty(),
            clouds: Seq::empty(),
            temperature: Seq::empty(),
            dewpoint: Seq::empty(),
            altimeter: Seq::empty(),
            altimeter_hpa: None,
            altimeter_inches: None,
            altimeter_default_unit: Seq::empty(),
            remarks: Seq::empty(),
            raw: Seq::empty(),
        }
    }

    /// Whether the numbers of the report go with its texts: the three parts
    /// of the time are there exactly where the time is given in words, and
    /// the altimeter setting in either unit, and the unit's name, exactly
    /// where the setting is given in words.
    pub open spec fn is_consistent(self) -> bool {
        &&& self.zulu_day is Some <==> self.date_time.len() > 0
        &&& self.zulu_hour is Some <==> self.date_time.len() > 0
        &&& self.zulu_minute is Some <==> self.date_time.len() > 0
        &&& self.altimeter_hpa is Some <==> self.altimeter.len() > 0
        &&& self.altimeter_inches is Some <==> self.altimeter.len() > 0
        &&& self.altimeter_default_unit.len() > 0 <==> self.altimeter.len() > 0
    }

    /// Whether the altimeter setting is the same pressure in both units.
    /// Where the report gave it in inches, the inches are a whole number of
    /// hundredths, and the hectopascals are their conversion, rounded to the
    /// nearest whole number.
    /// Where the report gave it in hectopascals, the inches are their
    /// conversion, rounded to the nearest millionth.
    pub open spec fn units_agree(self) -> bool {
        match (self.altimeter_hpa, self.altimeter_inches) {
            (Some(hectopascals), Some(inches)) => {
                ||| {
                    &&& self.altimeter_default_unit == "inches"@
                    &&& inches.millionths % 10_000 == 0
                    &&& hectopascals == hectopascals_in((inches.millionths / 10_000) as nat)
                }
                ||| {
                    &&& self.altimeter_default_unit == "hpa"@
                    &&& inches.millionths == inch_millionths_in(hectopascals as nat)
                }
            },
            _ => true,
        }
    }
}

impl View for MetarInfo {
    type V = Report;

    open spec fn view(&self) -> Report {
        Report {
            station: self.station@,
            date_time: self.date_time@,
            zulu_day: self.zulu_day,
            zulu_hour: self.zulu_hour,
            zulu_minute: self.zulu_minute,
            wind: self.wind@,
            visibility: self.visibility@,
            weather: self.weather@,
            clouds: self.clouds@,
            temperature: self.temperature@,
            dewpoint: self.dewpoint@,
            altimeter: self.altimeter@,
            altimeter_hpa: self.altimeter_hpa,
            altimeter_inches: self.altimeter_inches,
            altimeter_default_unit: self.altimeter_default_unit@,
            remarks: self.remarks@,
            raw: self.raw@,
        }
    }
}

impl Default for MetarInfo {
    /// The report in which no section was found.
    fn default() -> (info: MetarInfo)
        ensures
            info@ == Report::blank(),
    {
        MetarInfo {
            station: String::new(),
            date_time: String::new(),
            zulu_day: None,
            zulu_hour: None,
            zulu_minute: None,
            wind: String::new(),
            visibility: String::new(),
            weather: String::new(),
            clouds: String::new(),
            temperature: String::new(),
            dewpoint: String::new(),
            altimeter: String::new(),
            altimeter_hpa: None,
            altimeter_inches: None,
            altimeter_default_unit: String::new(),
            remarks: String::new(),
            raw: String::new(),
        }
    }
}

} // verus!
