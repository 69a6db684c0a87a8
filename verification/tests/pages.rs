use metarflow::decode::parse_metar;
use metarflow::page::format_stat_value;
use metarflow::page::results_page;
use metarflow::report::MetarInfo;
use metarflow::request::accept_code;
use metarflow::request::check_status;
use metarflow::request::metar_url;
use metarflow::request::read_payload;
use metarflow::request::station_code;
use metarflow::request::LookupError;
use metarflow::request::MetarQuery;

#[test]
fn an_empty_value_shows_the_default() {
    assert_eq!(format_stat_value("", "N/A"), (" empty".to_string(), "N/A".to_string()));
    assert_eq!(format_stat_value("", ""), (" empty".to_string(), "".to_string()));
}

#[test]
fn a_value_shows_itself() {
    assert_eq!(format_stat_value("10 statute miles", "N/A"), ("".to_string(), "10 statute miles".to_string()));
    assert_eq!(format_stat_value(" ", "N/A"), ("".to_string(), " ".to_string()));
}

#[test]
fn the_page_of_a_full_report() {
    let info = parse_metar("KJFK 251651Z 27015G25KT 10SM FEW250 22/12 A3012 RMK AO2", "KJFK");
    let page = results_page(&info);
    assert_eq!(page.station, "KJFK");
    assert_eq!(page.date_time.class, "");
    assert_eq!(page.date_time.value, "Day 25, 16:51Z");
    assert_eq!(page.wind.value, "270 degrees (W) at 15 knots, gusting to 25 knots");
    assert_eq!(page.visibility.value, "10 statute miles");
    assert_eq!(page.weather.value, "None");
    assert_eq!(page.clouds.value, "Few at 25000 feet");
    assert_eq!(page.temperature.value, "22\u{b0}C (71\u{b0}F)");
    assert_eq!(page.dewpoint.value, "12\u{b0}C (53\u{b0}F)");
    assert_eq!(page.altimeter.value, "30.12 inches of mercury");
    assert_eq!(page.remarks.class, "");
    assert_eq!(page.remarks.value, "Automated station");
    assert_eq!(page.raw, "KJFK 251651Z 27015G25KT 10SM FEW250 22/12 A3012 RMK AO2");
    assert_eq!(page.altimeter_hpa, "1020");
    assert_eq!(page.altimeter_inches, "30.12");
    assert_eq!(page.altimeter_unit, "inches");
    assert_eq!(page.zulu_day, "25");
    assert_eq!(page.zulu_hour, "16");
    assert_eq!(page.zulu_minute, "51");
}

#[test]
fn the_page_of_a_report_in_hectopascals() {
    let info = parse_metar("EGLL 251650Z VRB03KT CAVOK 18/09 Q1015", "EGLL");
    let page = results_page(&info);
    assert_eq!(page.altimeter_hpa, "1015");
    assert_eq!(page.altimeter_inches, "29.97");
    assert_eq!(page.altimeter_unit, "hpa");
    assert_eq!(page.remarks.class, " empty");
    assert_eq!(page.remarks.value, "None");
}

#[test]
fn the_page_of_a_blank_report() {
    let page = results_page(&MetarInfo::default());
    assert_eq!(page.station, "");
    for stat in [
        &page.date_time,
        &page.wind,
        &page.visibility,
        &page.weather,
        &page.clouds,
        &page.temperature,
        &page.dewpoint,
        &page.altimeter,
    ] {
        assert_eq!(stat.class, " empty");
        assert_eq!(stat.value, "N/A");
    }
    assert_eq!(page.remarks.class, " empty");
    assert_eq!(page.remarks.value, "None");
    assert_eq!(page.raw, "");
    assert_eq!(page.altimeter_hpa, "null");
    assert_eq!(page.altimeter_inches, "null");
    assert_eq!(page.altimeter_unit, "hpa");
    assert_eq!(page.zulu_day, "null");
    assert_eq!(page.zulu_hour, "null");
    assert_eq!(page.zulu_minute, "null");
}

fn code_for(typed: &str) -> Result<String, LookupError> {
    station_code(&MetarQuery { icao: typed.to_string() })
}

#[test]
fn a_station_code_is_trimmed_and_put_in_upper_case() {
    assert_eq!(code_for("KJFK").ok().unwrap(), "KJFK");
    assert_eq!(code_for("  kjfk\n").ok().unwrap(), "KJFK");
    assert_eq!(code_for("eGlL").ok().unwrap(), "EGLL");
    assert_eq!(code_for("k1f2").ok().unwrap(), "K1F2");
    assert_eq!(code_for("\u{df}ab").ok().unwrap(), "SSAB");
}

#[test]
fn a_station_code_of_another_length_is_refused() {
    for typed in ["", "   ", "KJF", "KJFKX", "K J F K", "\u{df}abc"] {
        assert!(matches!(code_for(typed), Err(LookupError::BadCode)), "{:?}", typed);
    }
}

#[test]
fn a_code_of_four_characters_is_accepted_as_it_is() {
    assert_eq!(accept_code("KJFK".to_string()).ok().unwrap(), "KJFK");
    assert_eq!(accept_code("kjfk".to_string()).ok().unwrap(), "kjfk");
    assert_eq!(accept_code("\u{e9}\u{e9}\u{e9}\u{e9}".to_string()).ok().unwrap(), "\u{e9}\u{e9}\u{e9}\u{e9}");
    assert!(matches!(accept_code("KJF".to_string()), Err(LookupError::BadCode)));
    assert!(matches!(accept_code("".to_string()), Err(LookupError::BadCode)));
}

#[test]
fn the_address_names_the_station() {
    assert_eq!(metar_url("KJFK"), "https://aviationweather.gov/api/data/metar?ids=KJFK&format=raw");
    assert_eq!(metar_url(""), "https://aviationweather.gov/api/data/metar?ids=&format=raw");
}

#[test]
fn the_payload_is_the_body_without_white_space_around_it() {
    assert_eq!(
        read_payload("KJFK 251651Z 27015KT\n", "KJFK").ok().unwrap(),
        "KJFK 251651Z 27015KT"
    );
    assert_eq!(read_payload("  x  ", "KJFK").ok().unwrap(), "x");
}

#[test]
fn a_blank_body_is_no_report() {
    for body in ["", "\n", "  \t "] {
        match read_payload(body, "KJFK") {
            Err(LookupError::NoReport(station)) => assert_eq!(station, "KJFK"),
            _ => panic!("a blank body was taken for a report"),
        }
    }
}

#[test]
fn errors_in_words() {
    assert_eq!(
        LookupError::BadCode.to_text(),
        "ICAO codes should be 4 characters (e.g., KJFK, EGLL, YSSY)"
    );
    assert_eq!(
        LookupError::BadStatus("404 Not Found".to_string()).to_text(),
        "Error fetching METAR: Failed to fetch data: 404 Not Found"
    );
    assert_eq!(
        LookupError::NoReport("KJFK".to_string()).to_text(),
        "Error fetching METAR: No METAR data found for airport KJFK"
    );
    assert_eq!(
        LookupError::Unreachable("connection refused".to_string()).to_text(),
        "Error fetching METAR: connection refused"
    );
}

#[test]
fn only_a_bad_code_is_the_fault_of_the_request() {
    assert_eq!(LookupError::BadCode.status(), 400);
    assert_eq!(LookupError::BadStatus("500".to_string()).status(), 500);
    assert_eq!(LookupError::NoReport("KJFK".to_string()).status(), 500);
    assert_eq!(LookupError::Unreachable("".to_string()).status(), 500);
}

#[test]
fn statuses_from_200_to_299_are_a_success() {
    for status in [200, 204, 299] {
        assert!(check_status(status, "shown").is_ok());
    }
}

#[test]
fn any_other_status_is_an_error_that_keeps_what_is_shown() {
    for status in [0, 100, 199, 300, 404, 500, 999, u16::MAX] {
        match check_status(status, "404 Not Found") {
            Err(LookupError::BadStatus(kept)) => assert_eq!(kept, "404 Not Found"),
            _ => panic!("status {} was taken for a success", status),
        }
    }
}
