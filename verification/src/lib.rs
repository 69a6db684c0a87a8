//! Decoding of METAR aviation weather reports into readable text.
//!
//! A report is split into its tokens ([`tokens`]) and read in one pass, section
//! by section ([`decode`]): time ([`time`]), wind ([`wind`]), visibility
//! ([`visibility`]), present weather ([`weather`]), clouds ([`clouds`]), then
//! temperature, dew point and altimeter setting ([`surface`]) and the remarks
//! ([`remarks`]). The result is a [`report::MetarInfo`]. A token that is not
//! understood is passed over: decoding never fails.
//!
//! Numbers are read and written by [`numbers`] and, where they may have a
//! decimal point, by [`decimals`].
//!
//! Each decoder comes with a statement of what it returns, over sequences of
//! characters, and is proved to meet it. [`laws`] holds what follows for every
//! report.

pub mod clouds;
pub mod decimals;
pub mod decode;
pub mod laws;
pub mod numbers;
pub mod page;
pub mod remarks;
pub mod report;
pub mod request;
pub mod surface;
pub mod text;
pub mod time;
pub mod tokens;
pub mod units;
pub mod visibility;
pub mod weather;
pub mod wind;
