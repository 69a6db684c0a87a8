//! Around a lookup: the station code that a request names, the address at
//! which a report is asked for, and what is made of the answer.

use vstd::prelude::*;
use vstd::string::StrSliceExecFns;
use vstd::string::StringExecFns;
use crate::text::chars_of;
use crate::text::string_of;
use crate::text::trim;
use crate::text::trimmed;

verus! {

/// What the handlers of requests share: nothing.
#[derive(Clone, Copy, Debug)]
pub struct AppState {}

/// The query of a request for a report.
pub struct MetarQuery {
    /// The station code as it was typed.
    pub icao: String,
}

/// Why a lookup gave no report.
pub enum LookupError {
    /// The station code does not have four characters.
    BadCode,
    /// The service answered with a status that is no success; the text names
    /// the status.
    BadStatus(String),
    /// The service answered with nothing but white space; the text names the
    /// station.
    NoReport(String),
    /// The service could not be reached; the text says why.
    Unreachable(String),
}

/// A text in upper case, as `str::to_uppercase` gives it.
pub uninterp spec fn uppercase(text: Seq<char>) -> Seq<char>;

/// `str::to_uppercase`: the result is the upper case of the text, which
/// depends on the text alone.
#[verifier::external_body]
fn to_uppercase(text: &str) -> (upper: String)
    ensures
        upper@ == uppercase(text@),
{
    text.to_uppercase()
}

/// The station code that a query names: what was typed, without the white
/// space around it, in upper case.
pub open spec fn code_of(typed: Seq<char>) -> Seq<char> {
    uppercase(trimmed(typed))
}

/// Accepts a station code of four characters, and no other.
pub fn accept_code(code: String) -> (accepted: Result<String, LookupError>)
    ensures
        code@.len() == 4 ==> (accepted matches Ok(kept) && kept@ == code@),
        code@.len() != 4 ==> (accepted matches Err(LookupError::BadCode)),
{
    if code.as_str().unicode_len() == 4 {
        Ok(code)
    } else {
        Err(LookupError::BadCode)
    }
}

/// The station code that a query names, where it has four characters.
pub fn station_code(query: &MetarQuery) -> (accepted: Result<String, LookupError>)
    ensures
        code_of(query.icao@).len() == 4 ==> (accepted matches Ok(code) && code@ == code_of(
            query.icao@,
        )),
        code_of(query.icao@).len() != 4 ==> (accepted matches Err(LookupError::BadCode)),
{
    let typed = chars_of(query.icao.as_str());
    let bare = string_of(trim(typed.as_slice()));
    accept_code(to_uppercase(bare.as_str()))
}

/// The address at which the report of a station is asked for.
pub open spec fn address_of(code: Seq<char>) -> Seq<char> {
    "https://aviationweather.gov/api/data/metar?ids="@ + code + "&format=raw"@
}

/// The address at which the report of the station `code` is asked for.
pub fn metar_url(code: &str) -> (address: String)
    ensures
        address@ == address_of(code@),
{
    let mut address = String::from_str("https://aviationweather.gov/api/data/metar?ids=");
    address.append(code);
    address.append("&format=raw");
    address
}

/// The report in the body of an answer: the body without the white space
/// around it. A body that holds nothing else is no report.
pub fn read_payload(body: &str, code: &str) -> (report: Result<String, LookupError>)
    ensures
        trimmed(body@).len() > 0 ==> (report matches Ok(text) && text@ == trimmed(body@)),
        trimmed(body@).len() == 0 ==> (report matches Err(LookupError::NoReport(station))
            && station@ == code@),
{
    let chars = chars_of(body);
    let bare = trim(chars.as_slice());
    if bare.len() == 0 {
        Err(LookupError::NoReport(String::from_str(code)))
    } else {
        Ok(string_of(bare))
    }
}

/// Whether the status of an answer says that the request succeeded: it is one
/// of the statuses from 200 to 299.
pub open spec fn is_success(status: u16) -> bool {
    200 <= status <= 299
}

/// Goes by the status of an answer: a status that is no success is an error,
/// which keeps the status as it is shown.
pub fn check_status(status: u16, shown: &str) -> (checked: Result<(), LookupError>)
    ensures
        is_success(status) ==> checked is Ok,
        !is_success(status) ==> (checked matches Err(LookupError::BadStatus(kept)) && kept@
            == shown@),
{
    if 200 <= status && status <= 299 {
        Ok(())
    } else {
        Err(LookupError::BadStatus(String::from_str(shown)))
    }
}

/// The status with which a failed lookup is answered: 400 where the request
/// itself was at fault, 500 where the service was.
pub open spec fn answer_status(error: LookupError) -> u16 {
    if error is BadCode {
        400
    } else {
        500
    }
}

/// What the page of errors says of a failed lookup.
pub open spec fn error_text(error: LookupError) -> Seq<char> {
    match error {
        LookupError::BadCode => "ICAO codes should be 4 characters (e.g., KJFK, EGLL, YSSY)"@,
        LookupError::BadStatus(status) => "Error fetching METAR: Failed to fetch data: "@
            + status@,
        LookupError::NoReport(station) => "Error fetching METAR: No METAR data found for airport "@
            + station@,
        LookupError::Unreachable(reason) => "Error fetching METAR: "@ + reason@,
    }
}

impl LookupError {
    /// The status with which this error is answered.
    pub fn status(&self) -> (status: u16)
        ensures
            status == answer_status(*self),
    {
        match self {
            LookupError::BadCode => 400,
            _ => 500,
        }
    }

    /// What the page of errors says of this error.
    pub fn to_text(&self) -> (text: String)
        ensures
            text@ == error_text(*self),
    {
        match self {
            LookupError::BadCode => String::from_str(
                "ICAO codes should be 4 characters (e.g., KJFK, EGLL, YSSY)",
            ),
            LookupError::BadStatus(status) => {
                let mut text = String::from_str("Error fetching METAR: Failed to fetch data: ");
                text.append(status.as_str());
                text
            },
            LookupError::NoReport(station) => {
                let mut text = String::from_str(
                    "Error fetching METAR: No METAR data found for airport ",
                );
                text.append(station.as_str());
                text
            },
            LookupError::Unreachable(reason) => {
                let mut text = String::from_str("Error fetching METAR: ");
                text.append(reason.as_str());
                text
            },
        }
    }
}

} // verus!
