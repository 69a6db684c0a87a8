use metarflow::decode::parse_metar;
use metarflow::units::Inches;

#[test]
fn jfk_with_gusts() {
    let info = parse_metar("KJFK 251651Z 27015G25KT 10SM FEW250 22/12 A3012 RMK AO2", "XXXX");
    assert_eq!(info.station, "KJFK");
    assert_eq!(info.date_time, "Day 25, 16:51Z");
    assert_eq!(info.wind, "270 degrees (W) at 15 knots, gusting to 25 knots");
    assert_eq!(info.visibility, "10 statute miles");
    assert_eq!(info.weather, "None");
    assert_eq!(info.clouds, "Few at 25000 feet");
    assert_eq!(info.temperature, "22\u{b0}C (71\u{b0}F)");
    assert_eq!(info.dewpoint, "12\u{b0}C (53\u{b0}F)");
    assert_eq!(info.altimeter, "30.12 inches of mercury");
    assert_eq!(info.remarks, "Automated station");
    assert_eq!((info.zulu_day, info.zulu_hour, info.zulu_minute), (Some(25), Some(16), Some(51)));
    assert_eq!(info.altimeter_hpa, Some(1020));
    assert_eq!(info.altimeter_inches, Some(Inches { millionths: 30120000 }));
    assert_eq!(info.altimeter_default_unit, "inches");
    assert_eq!(info.raw, "KJFK 251651Z 27015G25KT 10SM FEW250 22/12 A3012 RMK AO2");
}

#[test]
fn lax_with_two_layers() {
    let info = parse_metar("METAR KLAX 121853Z 25008KT 10SM FEW015 SCT250 21/14 A2996 RMK AO2 SLP144 T02110139", "XXXX");
    assert_eq!(info.station, "KLAX");
    assert_eq!(info.date_time, "Day 12, 18:53Z");
    assert_eq!(info.wind, "250 degrees (W) at 8 knots");
    assert_eq!(info.visibility, "10 statute miles");
    assert_eq!(info.weather, "None");
    assert_eq!(info.clouds, "Few at 1500 feet, Scattered at 25000 feet");
    assert_eq!(info.temperature, "21\u{b0}C (69\u{b0}F)");
    assert_eq!(info.dewpoint, "14\u{b0}C (57\u{b0}F)");
    assert_eq!(info.altimeter, "29.96 inches of mercury");
    assert_eq!(info.remarks, "Automated station");
    assert_eq!((info.zulu_day, info.zulu_hour, info.zulu_minute), (Some(12), Some(18), Some(53)));
    assert_eq!(info.altimeter_hpa, Some(1015));
    assert_eq!(info.altimeter_inches, Some(Inches { millionths: 29960000 }));
    assert_eq!(info.altimeter_default_unit, "inches");
    assert_eq!(info.raw, "METAR KLAX 121853Z 25008KT 10SM FEW015 SCT250 21/14 A2996 RMK AO2 SLP144 T02110139");
}

#[test]
fn ord_with_light_rain() {
    let info = parse_metar("KORD 041951Z 19012G20KT 10SM -RA BKN035 OVC050 18/15 A2978 RMK AO2 RAB32 P0001", "XXXX");
    assert_eq!(info.station, "KORD");
    assert_eq!(info.date_time, "Day 4, 19:51Z");
    assert_eq!(info.wind, "190 degrees (S) at 12 knots, gusting to 20 knots");
    assert_eq!(info.visibility, "10 statute miles");
    assert_eq!(info.weather, "Light rain");
    assert_eq!(info.clouds, "Broken at 3500 feet, Overcast at 5000 feet");
    assert_eq!(info.temperature, "18\u{b0}C (64\u{b0}F)");
    assert_eq!(info.dewpoint, "15\u{b0}C (59\u{b0}F)");
    assert_eq!(info.altimeter, "29.78 inches of mercury");
    assert_eq!(info.remarks, "Automated station. Precipitation: 0.01 inches");
    assert_eq!((info.zulu_day, info.zulu_hour, info.zulu_minute), (Some(4), Some(19), Some(51)));
    assert_eq!(info.altimeter_hpa, Some(1008));
    assert_eq!(info.altimeter_inches, Some(Inches { millionths: 29780000 }));
    assert_eq!(info.altimeter_default_unit, "inches");
    assert_eq!(info.raw, "KORD 041951Z 19012G20KT 10SM -RA BKN035 OVC050 18/15 A2978 RMK AO2 RAB32 P0001");
}

#[test]
fn sfo_under_low_cloud() {
    let info = parse_metar("KSFO 311756Z 28018KT 9SM BKN008 OVC012 14/11 A3005 RMK AO2", "XXXX");
    assert_eq!(info.station, "KSFO");
    assert_eq!(info.date_time, "Day 31, 17:56Z");
    assert_eq!(info.wind, "280 degrees (W) at 18 knots");
    assert_eq!(info.visibility, "9 statute miles");
    assert_eq!(info.weather, "None");
    assert_eq!(info.clouds, "Broken at 800 feet, Overcast at 1200 feet");
    assert_eq!(info.temperature, "14\u{b0}C (57\u{b0}F)");
    assert_eq!(info.dewpoint, "11\u{b0}C (51\u{b0}F)");
    assert_eq!(info.altimeter, "30.05 inches of mercury");
    assert_eq!(info.remarks, "Automated station");
    assert_eq!((info.zulu_day, info.zulu_hour, info.zulu_minute), (Some(31), Some(17), Some(56)));
    assert_eq!(info.altimeter_hpa, Some(1018));
    assert_eq!(info.altimeter_inches, Some(Inches { millionths: 30050000 }));
    assert_eq!(info.altimeter_default_unit, "inches");
    assert_eq!(info.raw, "KSFO 311756Z 28018KT 9SM BKN008 OVC012 14/11 A3005 RMK AO2");
}

#[test]
fn den_below_freezing() {
    let info = parse_metar("KDEN 101453Z 00000KT 10SM CLR M05/M12 A3032 RMK AO2 SLP312", "XXXX");
    assert_eq!(info.station, "KDEN");
    assert_eq!(info.date_time, "Day 10, 14:53Z");
    assert_eq!(info.wind, "0 degrees (N) at 0 knots");
    assert_eq!(info.visibility, "10 statute miles");
    assert_eq!(info.weather, "None");
    assert_eq!(info.clouds, "Clear below 12,000 feet");
    assert_eq!(info.temperature, "-5\u{b0}C (23\u{b0}F)");
    assert_eq!(info.dewpoint, "-12\u{b0}C (11\u{b0}F)");
    assert_eq!(info.altimeter, "30.32 inches of mercury");
    assert_eq!(info.remarks, "Automated station");
    assert_eq!((info.zulu_day, info.zulu_hour, info.zulu_minute), (Some(10), Some(14), Some(53)));
    assert_eq!(info.altimeter_hpa, Some(1027));
    assert_eq!(info.altimeter_inches, Some(Inches { millionths: 30320000 }));
    assert_eq!(info.altimeter_default_unit, "inches");
    assert_eq!(info.raw, "KDEN 101453Z 00000KT 10SM CLR M05/M12 A3032 RMK AO2 SLP312");
}

#[test]
fn sea_in_rain_and_mist() {
    let info = parse_metar("KSEA 151553Z VRB04KT 2SM -RA BR OVC004 09/08 A2989 RMK AO2 P0003", "XXXX");
    assert_eq!(info.station, "KSEA");
    assert_eq!(info.date_time, "Day 15, 15:53Z");
    assert_eq!(info.wind, "Variable at 4 knots");
    assert_eq!(info.visibility, "2 statute miles");
    assert_eq!(info.weather, "Light rain, mist");
    assert_eq!(info.clouds, "Overcast at 400 feet");
    assert_eq!(info.temperature, "9\u{b0}C (48\u{b0}F)");
    assert_eq!(info.dewpoint, "8\u{b0}C (46\u{b0}F)");
    assert_eq!(info.altimeter, "29.89 inches of mercury");
    assert_eq!(info.remarks, "Automated station. Precipitation: 0.03 inches");
    assert_eq!((info.zulu_day, info.zulu_hour, info.zulu_minute), (Some(15), Some(15), Some(53)));
    assert_eq!(info.altimeter_hpa, Some(1012));
    assert_eq!(info.altimeter_inches, Some(Inches { millionths: 29890000 }));
    assert_eq!(info.altimeter_default_unit, "inches");
    assert_eq!(info.raw, "KSEA 151553Z VRB04KT 2SM -RA BR OVC004 09/08 A2989 RMK AO2 P0003");
}

#[test]
fn bos_in_heavy_snow() {
    let info = parse_metar("KBOS 201254Z 36022G32KT 1SM +SN BLSN VV005 M03/M05 A2962 RMK AO2 PK", "XXXX");
    assert_eq!(info.station, "KBOS");
    assert_eq!(info.date_time, "Day 20, 12:54Z");
    assert_eq!(info.wind, "360 degrees (N) at 22 knots, gusting to 32 knots");
    assert_eq!(info.visibility, "1 statute miles");
    assert_eq!(info.weather, "Heavy snow, Blowing snow");
    assert_eq!(info.clouds, "Sky obscured, vertical visibility 500 feet");
    assert_eq!(info.temperature, "-3\u{b0}C (27\u{b0}F)");
    assert_eq!(info.dewpoint, "-5\u{b0}C (23\u{b0}F)");
    assert_eq!(info.altimeter, "29.62 inches of mercury");
    assert_eq!(info.remarks, "Automated station");
    assert_eq!((info.zulu_day, info.zulu_hour, info.zulu_minute), (Some(20), Some(12), Some(54)));
    assert_eq!(info.altimeter_hpa, Some(1003));
    assert_eq!(info.altimeter_inches, Some(Inches { millionths: 29620000 }));
    assert_eq!(info.altimeter_default_unit, "inches");
    assert_eq!(info.raw, "KBOS 201254Z 36022G32KT 1SM +SN BLSN VV005 M03/M05 A2962 RMK AO2 PK");
}

#[test]
fn mia_with_showers_nearby() {
    let info = parse_metar("KMIA 071753Z 12010KT 10SM VCSH SCT025TCU BKN045 29/24 A3001 RMK AO2", "XXXX");
    assert_eq!(info.station, "KMIA");
    assert_eq!(info.date_time, "Day 7, 17:53Z");
    assert_eq!(info.wind, "120 degrees (SE) at 10 knots");
    assert_eq!(info.visibility, "10 statute miles");
    assert_eq!(info.weather, "In vicinity Showers");
    assert_eq!(info.clouds, "Scattered at 2500 feet (towering cumulus), Broken at 4500 feet");
    assert_eq!(info.temperature, "29\u{b0}C (84\u{b0}F)");
    assert_eq!(info.dewpoint, "24\u{b0}C (75\u{b0}F)");
    assert_eq!(info.altimeter, "30.01 inches of mercury");
    assert_eq!(info.remarks, "Automated station");
    assert_eq!((info.zulu_day, info.zulu_hour, info.zulu_minute), (Some(7), Some(17), Some(53)));
    assert_eq!(info.altimeter_hpa, Some(1016));
    assert_eq!(info.altimeter_inches, Some(Inches { millionths: 30010000 }));
    assert_eq!(info.altimeter_default_unit, "inches");
    assert_eq!(info.raw, "KMIA 071753Z 12010KT 10SM VCSH SCT025TCU BKN045 29/24 A3001 RMK AO2");
}

#[test]
fn atl_with_varying_wind() {
    let info = parse_metar("KATL 231952Z 23009KT 190V260 10SM SCT040CB BKN250 31/21 A3004 RMK AO2 $", "XXXX");
    assert_eq!(info.station, "KATL");
    assert_eq!(info.date_time, "Day 23, 19:52Z");
    assert_eq!(info.wind, "230 degrees (SW) at 9 knots, variable between 190 and 260 degrees");
    assert_eq!(info.visibility, "10 statute miles");
    assert_eq!(info.weather, "None");
    assert_eq!(info.clouds, "Scattered at 4000 feet (cumulonimbus), Broken at 25000 feet");
    assert_eq!(info.temperature, "31\u{b0}C (87\u{b0}F)");
    assert_eq!(info.dewpoint, "21\u{b0}C (69\u{b0}F)");
    assert_eq!(info.altimeter, "30.04 inches of mercury");
    assert_eq!(info.remarks, "Automated station");
    assert_eq!((info.zulu_day, info.zulu_hour, info.zulu_minute), (Some(23), Some(19), Some(52)));
    assert_eq!(info.altimeter_hpa, Some(1017));
    assert_eq!(info.altimeter_inches, Some(Inches { millionths: 30040000 }));
    assert_eq!(info.altimeter_default_unit, "inches");
    assert_eq!(info.raw, "KATL 231952Z 23009KT 190V260 10SM SCT040CB BKN250 31/21 A3004 RMK AO2 $");
}

#[test]
fn dfw_in_a_thunderstorm() {
    let info = parse_metar("SPECI KDFW 051412Z 18015G28KT 3SM +TSRA FEW015 BKN030CB OVC080 24/22 A2981 RMK AO2 P0045", "XXXX");
    assert_eq!(info.station, "KDFW");
    assert_eq!(info.date_time, "Day 5, 14:12Z");
    assert_eq!(info.wind, "180 degrees (S) at 15 knots, gusting to 28 knots");
    assert_eq!(info.visibility, "3 statute miles");
    assert_eq!(info.weather, "Heavy Thunderstorm rain");
    assert_eq!(info.clouds, "Few at 1500 feet, Broken at 3000 feet (cumulonimbus), Overcast at 8000 feet");
    assert_eq!(info.temperature, "24\u{b0}C (75\u{b0}F)");
    assert_eq!(info.dewpoint, "22\u{b0}C (71\u{b0}F)");
    assert_eq!(info.altimeter, "29.81 inches of mercury");
    assert_eq!(info.remarks, "Automated station. Precipitation: 0.45 inches");
    assert_eq!((info.zulu_day, info.zulu_hour, info.zulu_minute), (Some(5), Some(14), Some(12)));
    assert_eq!(info.altimeter_hpa, Some(1009));
    assert_eq!(info.altimeter_inches, Some(Inches { millionths: 29810000 }));
    assert_eq!(info.altimeter_default_unit, "inches");
    assert_eq!(info.raw, "SPECI KDFW 051412Z 18015G28KT 3SM +TSRA FEW015 BKN030CB OVC080 24/22 A2981 RMK AO2 P0045");
}

#[test]
fn london_cavok() {
    let info = parse_metar("EGLL 251650Z VRB03KT CAVOK 18/09 Q1015", "XXXX");
    assert_eq!(info.station, "EGLL");
    assert_eq!(info.date_time, "Day 25, 16:50Z");
    assert_eq!(info.wind, "Variable at 3 knots");
    assert_eq!(info.visibility, "10 kilometers or more");
    assert_eq!(info.weather, "None significant");
    assert_eq!(info.clouds, "No clouds below 5,000 feet");
    assert_eq!(info.temperature, "18\u{b0}C (64\u{b0}F)");
    assert_eq!(info.dewpoint, "9\u{b0}C (48\u{b0}F)");
    assert_eq!(info.altimeter, "1015 hectopascals");
    assert_eq!(info.remarks, "");
    assert_eq!((info.zulu_day, info.zulu_hour, info.zulu_minute), (Some(25), Some(16), Some(50)));
    assert_eq!(info.altimeter_hpa, Some(1015));
    assert_eq!(info.altimeter_inches, Some(Inches { millionths: 29972921 }));
    assert_eq!(info.altimeter_default_unit, "hpa");
    assert_eq!(info.raw, "EGLL 251650Z VRB03KT CAVOK 18/09 Q1015");
}

#[test]
fn london_automatic() {
    let info = parse_metar("EGLL 251720Z AUTO 24008KT 9999 NCD 17/10 Q1016", "XXXX");
    assert_eq!(info.station, "EGLL");
    assert_eq!(info.date_time, "Day 25, 17:20Z");
    assert_eq!(info.wind, "240 degrees (SW) at 8 knots");
    assert_eq!(info.visibility, "10 kilometers or more");
    assert_eq!(info.weather, "None");
    assert_eq!(info.clouds, "No cloud detected");
    assert_eq!(info.temperature, "17\u{b0}C (62\u{b0}F)");
    assert_eq!(info.dewpoint, "10\u{b0}C (50\u{b0}F)");
    assert_eq!(info.altimeter, "1016 hectopascals");
    assert_eq!(info.remarks, "");
    assert_eq!((info.zulu_day, info.zulu_hour, info.zulu_minute), (Some(25), Some(17), Some(20)));
    assert_eq!(info.altimeter_hpa, Some(1016));
    assert_eq!(info.altimeter_inches, Some(Inches { millionths: 30002451 }));
    assert_eq!(info.altimeter_default_unit, "hpa");
    assert_eq!(info.raw, "EGLL 251720Z AUTO 24008KT 9999 NCD 17/10 Q1016");
}

#[test]
fn paris_with_varying_wind() {
    let info = parse_metar("LFPG 251630Z 27012KT 240V300 9999 FEW040 SCT100 19/08 Q1018 NOSIG", "XXXX");
    assert_eq!(info.station, "LFPG");
    assert_eq!(info.date_time, "Day 25, 16:30Z");
    assert_eq!(info.wind, "270 degrees (W) at 12 knots, variable between 240 and 300 degrees");
    assert_eq!(info.visibility, "10 kilometers or more");
    assert_eq!(info.weather, "None");
    assert_eq!(info.clouds, "Few at 4000 feet, Scattered at 10000 feet");
    assert_eq!(info.temperature, "19\u{b0}C (66\u{b0}F)");
    assert_eq!(info.dewpoint, "8\u{b0}C (46\u{b0}F)");
    assert_eq!(info.altimeter, "1018 hectopascals");
    assert_eq!(info.remarks, "");
    assert_eq!((info.zulu_day, info.zulu_hour, info.zulu_minute), (Some(25), Some(16), Some(30)));
    assert_eq!(info.altimeter_hpa, Some(1018));
    assert_eq!(info.altimeter_inches, Some(Inches { millionths: 30061511 }));
    assert_eq!(info.altimeter_default_unit, "hpa");
    assert_eq!(info.raw, "LFPG 251630Z 27012KT 240V300 9999 FEW040 SCT100 19/08 Q1018 NOSIG");
}

#[test]
fn frankfurt_in_mist() {
    let info = parse_metar("EDDF 251620Z 04005KT 010V070 5000 BR NSC 09/08 Q1023 NOSIG", "XXXX");
    assert_eq!(info.station, "EDDF");
    assert_eq!(info.date_time, "Day 25, 16:20Z");
    assert_eq!(info.wind, "40 degrees (NE) at 5 knots, variable between 10 and 70 degrees");
    assert_eq!(info.visibility, "5 kilometers");
    assert_eq!(info.weather, "mist");
    assert_eq!(info.clouds, "No significant cloud");
    assert_eq!(info.temperature, "9\u{b0}C (48\u{b0}F)");
    assert_eq!(info.dewpoint, "8\u{b0}C (46\u{b0}F)");
    assert_eq!(info.altimeter, "1023 hectopascals");
    assert_eq!(info.remarks, "");
    assert_eq!((info.zulu_day, info.zulu_hour, info.zulu_minute), (Some(25), Some(16), Some(20)));
    assert_eq!(info.altimeter_hpa, Some(1023));
    assert_eq!(info.altimeter_inches, Some(Inches { millionths: 30209161 }));
    assert_eq!(info.altimeter_default_unit, "hpa");
    assert_eq!(info.raw, "EDDF 251620Z 04005KT 010V070 5000 BR NSC 09/08 Q1023 NOSIG");
}

#[test]
fn amsterdam_with_a_trend() {
    let info = parse_metar("EHAM 251625Z 22015G25KT 8000 -SHRA FEW012 BKN025CB 12/09 Q1002 TEMPO 4000 SHRA", "XXXX");
    assert_eq!(info.station, "EHAM");
    assert_eq!(info.date_time, "Day 25, 16:25Z");
    assert_eq!(info.wind, "220 degrees (SW) at 15 knots, gusting to 25 knots");
    assert_eq!(info.visibility, "8 kilometers");
    assert_eq!(info.weather, "Light Showers rain");
    assert_eq!(info.clouds, "Few at 1200 feet, Broken at 2500 feet (cumulonimbus)");
    assert_eq!(info.temperature, "12\u{b0}C (53\u{b0}F)");
    assert_eq!(info.dewpoint, "9\u{b0}C (48\u{b0}F)");
    assert_eq!(info.altimeter, "1002 hectopascals");
    assert_eq!(info.remarks, "");
    assert_eq!((info.zulu_day, info.zulu_hour, info.zulu_minute), (Some(25), Some(16), Some(25)));
    assert_eq!(info.altimeter_hpa, Some(1002));
    assert_eq!(info.altimeter_inches, Some(Inches { millionths: 29589031 }));
    assert_eq!(info.altimeter_default_unit, "hpa");
    assert_eq!(info.raw, "EHAM 251625Z 22015G25KT 8000 -SHRA FEW012 BKN025CB 12/09 Q1002 TEMPO 4000 SHRA");
}

#[test]
fn moscow_in_meters_per_second() {
    let info = parse_metar("UUEE 251630Z 35004MPS 0800 +SN VV003 M12/M14 Q1009 R24L/590230 NOSIG", "XXXX");
    assert_eq!(info.station, "UUEE");
    assert_eq!(info.date_time, "Day 25, 16:30Z");
    assert_eq!(info.wind, "");
    assert_eq!(info.visibility, "");
    assert_eq!(info.weather, "None");
    assert_eq!(info.clouds, "Sky obscured, vertical visibility 300 feet");
    assert_eq!(info.temperature, "-12\u{b0}C (11\u{b0}F)");
    assert_eq!(info.dewpoint, "-14\u{b0}C (7\u{b0}F)");
    assert_eq!(info.altimeter, "1009 hectopascals");
    assert_eq!(info.remarks, "");
    assert_eq!((info.zulu_day, info.zulu_hour, info.zulu_minute), (Some(25), Some(16), Some(30)));
    assert_eq!(info.altimeter_hpa, Some(1009));
    assert_eq!(info.altimeter_inches, Some(Inches { millionths: 29795741 }));
    assert_eq!(info.altimeter_default_unit, "hpa");
    assert_eq!(info.raw, "UUEE 251630Z 35004MPS 0800 +SN VV003 M12/M14 Q1009 R24L/590230 NOSIG");
}

#[test]
fn tokyo_with_an_unknown_layer() {
    let info = parse_metar("RJTT 251630Z 02008KT 9999 FEW030 BKN/// 24/19 Q1012 NOSIG RMK 1CU030", "XXXX");
    assert_eq!(info.station, "RJTT");
    assert_eq!(info.date_time, "Day 25, 16:30Z");
    assert_eq!(info.wind, "20 degrees (N) at 8 knots");
    assert_eq!(info.visibility, "10 kilometers or more");
    assert_eq!(info.weather, "None");
    assert_eq!(info.clouds, "Few at 3000 feet");
    assert_eq!(info.temperature, "24\u{b0}C (75\u{b0}F)");
    assert_eq!(info.dewpoint, "19\u{b0}C (66\u{b0}F)");
    assert_eq!(info.altimeter, "1012 hectopascals");
    assert_eq!(info.remarks, "");
    assert_eq!((info.zulu_day, info.zulu_hour, info.zulu_minute), (Some(25), Some(16), Some(30)));
    assert_eq!(info.altimeter_hpa, Some(1012));
    assert_eq!(info.altimeter_inches, Some(Inches { millionths: 29884331 }));
    assert_eq!(info.altimeter_default_unit, "hpa");
    assert_eq!(info.raw, "RJTT 251630Z 02008KT 9999 FEW030 BKN/// 24/19 Q1012 NOSIG RMK 1CU030");
}

#[test]
fn sydney_cavok() {
    let info = parse_metar("YSSY 251630Z 16012KT CAVOK 22/14 Q1019", "XXXX");
    assert_eq!(info.station, "YSSY");
    assert_eq!(info.date_time, "Day 25, 16:30Z");
    assert_eq!(info.wind, "160 degrees (S) at 12 knots");
    assert_eq!(info.visibility, "10 kilometers or more");
    assert_eq!(info.weather, "None significant");
    assert_eq!(info.clouds, "No clouds below 5,000 feet");
    assert_eq!(info.temperature, "22\u{b0}C (71\u{b0}F)");
    assert_eq!(info.dewpoint, "14\u{b0}C (57\u{b0}F)");
    assert_eq!(info.altimeter, "1019 hectopascals");
    assert_eq!(info.remarks, "");
    assert_eq!((info.zulu_day, info.zulu_hour, info.zulu_minute), (Some(25), Some(16), Some(30)));
    assert_eq!(info.altimeter_hpa, Some(1019));
    assert_eq!(info.altimeter_inches, Some(Inches { millionths: 30091041 }));
    assert_eq!(info.altimeter_default_unit, "hpa");
    assert_eq!(info.raw, "YSSY 251630Z 16012KT CAVOK 22/14 Q1019");
}

#[test]
fn beijing_in_haze_and_smoke() {
    let info = parse_metar("ZBAA 251630Z 00000KT 3000 HZ FU SKC 28/16 Q1008", "XXXX");
    assert_eq!(info.station, "ZBAA");
    assert_eq!(info.date_time, "Day 25, 16:30Z");
    assert_eq!(info.wind, "0 degrees (N) at 0 knots");
    assert_eq!(info.visibility, "3 kilometers");
    assert_eq!(info.weather, "haze, smoke");
    assert_eq!(info.clouds, "Sky clear");
    assert_eq!(info.temperature, "28\u{b0}C (82\u{b0}F)");
    assert_eq!(info.dewpoint, "16\u{b0}C (60\u{b0}F)");
    assert_eq!(info.altimeter, "1008 hectopascals");
    assert_eq!(info.remarks, "");
    assert_eq!((info.zulu_day, info.zulu_hour, info.zulu_minute), (Some(25), Some(16), Some(30)));
    assert_eq!(info.altimeter_hpa, Some(1008));
    assert_eq!(info.altimeter_inches, Some(Inches { millionths: 29766211 }));
    assert_eq!(info.altimeter_default_unit, "hpa");
    assert_eq!(info.raw, "ZBAA 251630Z 00000KT 3000 HZ FU SKC 28/16 Q1008");
}

#[test]
fn dubai_in_dust() {
    let info = parse_metar("OMDB 251630Z 30010KT 6000 DU NSC 41/09 Q0998 NOSIG", "XXXX");
    assert_eq!(info.station, "OMDB");
    assert_eq!(info.date_time, "Day 25, 16:30Z");
    assert_eq!(info.wind, "300 degrees (NW) at 10 knots");
    assert_eq!(info.visibility, "6 kilometers");
    assert_eq!(info.weather, "widespread dust");
    assert_eq!(info.clouds, "No significant cloud");
    assert_eq!(info.temperature, "41\u{b0}C (105\u{b0}F)");
    assert_eq!(info.dewpoint, "9\u{b0}C (48\u{b0}F)");
    assert_eq!(info.altimeter, "998 hectopascals");
    assert_eq!(info.remarks, "");
    assert_eq!((info.zulu_day, info.zulu_hour, info.zulu_minute), (Some(25), Some(16), Some(30)));
    assert_eq!(info.altimeter_hpa, Some(998));
    assert_eq!(info.altimeter_inches, Some(Inches { millionths: 29470912 }));
    assert_eq!(info.altimeter_default_unit, "hpa");
    assert_eq!(info.raw, "OMDB 251630Z 30010KT 6000 DU NSC 41/09 Q0998 NOSIG");
}

#[test]
fn toronto_corrected() {
    let info = parse_metar("CYYZ 251600Z COR 31015G25KT 15SM DRSN FEW030 M18/M24 A3021 RMK SC1 SLP245", "XXXX");
    assert_eq!(info.station, "CYYZ");
    assert_eq!(info.date_time, "Day 25, 16:00Z");
    assert_eq!(info.wind, "310 degrees (NW) at 15 knots, gusting to 25 knots");
    assert_eq!(info.visibility, "15 statute miles");
    assert_eq!(info.weather, "Low drifting snow");
    assert_eq!(info.clouds, "Few at 3000 feet");
    assert_eq!(info.temperature, "-18\u{b0}C (0\u{b0}F)");
    assert_eq!(info.dewpoint, "-24\u{b0}C (-11\u{b0}F)");
    assert_eq!(info.altimeter, "30.21 inches of mercury");
    assert_eq!(info.remarks, "");
    assert_eq!((info.zulu_day, info.zulu_hour, info.zulu_minute), (Some(25), Some(16), Some(0)));
    assert_eq!(info.altimeter_hpa, Some(1023));
    assert_eq!(info.altimeter_inches, Some(Inches { millionths: 30210000 }));
    assert_eq!(info.altimeter_default_unit, "inches");
    assert_eq!(info.raw, "CYYZ 251600Z COR 31015G25KT 15SM DRSN FEW030 M18/M24 A3021 RMK SC1 SLP245");
}

#[test]
fn anchorage_in_freezing_fog() {
    let info = parse_metar("PANC 251553Z 00000KT 1/4SM FZFG VV002 M09/M10 A2968 RMK AO2 T10891100", "XXXX");
    assert_eq!(info.station, "PANC");
    assert_eq!(info.date_time, "Day 25, 15:53Z");
    assert_eq!(info.wind, "0 degrees (N) at 0 knots");
    assert_eq!(info.visibility, "");
    assert_eq!(info.weather, "Freezing fog");
    assert_eq!(info.clouds, "Sky obscured, vertical visibility 200 feet");
    assert_eq!(info.temperature, "-9\u{b0}C (16\u{b0}F)");
    assert_eq!(info.dewpoint, "-10\u{b0}C (14\u{b0}F)");
    assert_eq!(info.altimeter, "29.68 inches of mercury");
    assert_eq!(info.remarks, "Automated station");
    assert_eq!((info.zulu_day, info.zulu_hour, info.zulu_minute), (Some(25), Some(15), Some(53)));
    assert_eq!(info.altimeter_hpa, Some(1005));
    assert_eq!(info.altimeter_inches, Some(Inches { millionths: 29680000 }));
    assert_eq!(info.altimeter_default_unit, "inches");
    assert_eq!(info.raw, "PANC 251553Z 00000KT 1/4SM FZFG VV002 M09/M10 A2968 RMK AO2 T10891100");
}

#[test]
fn fraction_of_a_mile() {
    let info = parse_metar("KXYZ 251650Z 00000KT 1/4SM -RA BR OVC005 05/04 A2992", "XXXX");
    assert_eq!(info.station, "KXYZ");
    assert_eq!(info.date_time, "Day 25, 16:50Z");
    assert_eq!(info.wind, "0 degrees (N) at 0 knots");
    assert_eq!(info.visibility, "");
    assert_eq!(info.weather, "Light rain, mist");
    assert_eq!(info.clouds, "Overcast at 500 feet");
    assert_eq!(info.temperature, "5\u{b0}C (41\u{b0}F)");
    assert_eq!(info.dewpoint, "4\u{b0}C (39\u{b0}F)");
    assert_eq!(info.altimeter, "29.92 inches of mercury");
    assert_eq!(info.remarks, "");
    assert_eq!((info.zulu_day, info.zulu_hour, info.zulu_minute), (Some(25), Some(16), Some(50)));
    assert_eq!(info.altimeter_hpa, Some(1013));
    assert_eq!(info.altimeter_inches, Some(Inches { millionths: 29920000 }));
    assert_eq!(info.altimeter_default_unit, "inches");
    assert_eq!(info.raw, "KXYZ 251650Z 00000KT 1/4SM -RA BR OVC005 05/04 A2992");
}

#[test]
fn phoenix_sky_clear() {
    let info = parse_metar("KPHX 251651Z 27004KT 10SM SKC 42/03 A2979", "XXXX");
    assert_eq!(info.station, "KPHX");
    assert_eq!(info.date_time, "Day 25, 16:51Z");
    assert_eq!(info.wind, "270 degrees (W) at 4 knots");
    assert_eq!(info.visibility, "10 statute miles");
    assert_eq!(info.weather, "None");
    assert_eq!(info.clouds, "Sky clear");
    assert_eq!(info.temperature, "42\u{b0}C (107\u{b0}F)");
    assert_eq!(info.dewpoint, "3\u{b0}C (37\u{b0}F)");
    assert_eq!(info.altimeter, "29.79 inches of mercury");
    assert_eq!(info.remarks, "");
    assert_eq!((info.zulu_day, info.zulu_hour, info.zulu_minute), (Some(25), Some(16), Some(51)));
    assert_eq!(info.altimeter_hpa, Some(1009));
    assert_eq!(info.altimeter_inches, Some(Inches { millionths: 29790000 }));
    assert_eq!(info.altimeter_default_unit, "inches");
    assert_eq!(info.raw, "KPHX 251651Z 27004KT 10SM SKC 42/03 A2979");
}

#[test]
fn keflavik_in_a_gale() {
    let info = parse_metar("BIKF 251630Z 14035G48KT 3000 -RADZ BKN007 OVC012 06/05 Q0972", "XXXX");
    assert_eq!(info.station, "BIKF");
    assert_eq!(info.date_time, "Day 25, 16:30Z");
    assert_eq!(info.wind, "140 degrees (SE) at 35 knots, gusting to 48 knots");
    assert_eq!(info.visibility, "3 kilometers");
    assert_eq!(info.weather, "Light raindrizzle");
    assert_eq!(info.clouds, "Broken at 700 feet, Overcast at 1200 feet");
    assert_eq!(info.temperature, "6\u{b0}C (42\u{b0}F)");
    assert_eq!(info.dewpoint, "5\u{b0}C (41\u{b0}F)");
    assert_eq!(info.altimeter, "972 hectopascals");
    assert_eq!(info.remarks, "");
    assert_eq!((info.zulu_day, info.zulu_hour, info.zulu_minute), (Some(25), Some(16), Some(30)));
    assert_eq!(info.altimeter_hpa, Some(972));
    assert_eq!(info.altimeter_inches, Some(Inches { millionths: 28703132 }));
    assert_eq!(info.altimeter_default_unit, "hpa");
    assert_eq!(info.raw, "BIKF 251630Z 14035G48KT 3000 -RADZ BKN007 OVC012 06/05 Q0972");
}

#[test]
fn a_report_without_data() {
    let info = parse_metar("KJFK 251651Z NIL", "XXXX");
    assert_eq!(info.station, "KJFK");
    assert_eq!(info.date_time, "Day 25, 16:51Z");
    assert_eq!(info.wind, "");
    assert_eq!(info.visibility, "");
    assert_eq!(info.weather, "None");
    assert_eq!(info.clouds, "No cloud information");
    assert_eq!(info.temperature, "");
    assert_eq!(info.dewpoint, "");
    assert_eq!(info.altimeter, "");
    assert_eq!(info.remarks, "");
    assert_eq!((info.zulu_day, info.zulu_hour, info.zulu_minute), (Some(25), Some(16), Some(51)));
    assert_eq!(info.altimeter_hpa, None);
    assert_eq!(info.altimeter_inches, None);
    assert_eq!(info.altimeter_default_unit, "");
    assert_eq!(info.raw, "KJFK 251651Z NIL");
}

#[test]
fn a_station_alone() {
    let info = parse_metar("KJFK", "XXXX");
    assert_eq!(info.station, "KJFK");
    assert_eq!(info.date_time, "");
    assert_eq!(info.wind, "");
    assert_eq!(info.visibility, "");
    assert_eq!(info.weather, "None");
    assert_eq!(info.clouds, "No cloud information");
    assert_eq!(info.temperature, "");
    assert_eq!(info.dewpoint, "");
    assert_eq!(info.altimeter, "");
    assert_eq!(info.remarks, "");
    assert_eq!((info.zulu_day, info.zulu_hour, info.zulu_minute), (None, None, None));
    assert_eq!(info.altimeter_hpa, None);
    assert_eq!(info.altimeter_inches, None);
    assert_eq!(info.altimeter_default_unit, "");
    assert_eq!(info.raw, "KJFK");
}

#[test]
fn a_kind_alone() {
    let info = parse_metar("METAR", "XXXX");
    assert_eq!(info.station, "XXXX");
    assert_eq!(info.date_time, "");
    assert_eq!(info.wind, "");
    assert_eq!(info.visibility, "");
    assert_eq!(info.weather, "None");
    assert_eq!(info.clouds, "No cloud information");
    assert_eq!(info.temperature, "");
    assert_eq!(info.dewpoint, "");
    assert_eq!(info.altimeter, "");
    assert_eq!(info.remarks, "");
    assert_eq!((info.zulu_day, info.zulu_hour, info.zulu_minute), (None, None, None));
    assert_eq!(info.altimeter_hpa, None);
    assert_eq!(info.altimeter_inches, None);
    assert_eq!(info.altimeter_default_unit, "");
    assert_eq!(info.raw, "METAR");
}

#[test]
fn every_remark() {
    let info = parse_metar("KABC 251651Z 27015KT 10SM FEW250 22/12 A3012 RMK AO2 RAE42 P0000 T0250/0125 $ AO1", "XXXX");
    assert_eq!(info.station, "KABC");
    assert_eq!(info.date_time, "Day 25, 16:51Z");
    assert_eq!(info.wind, "270 degrees (W) at 15 knots");
    assert_eq!(info.visibility, "10 statute miles");
    assert_eq!(info.weather, "None");
    assert_eq!(info.clouds, "Few at 25000 feet");
    assert_eq!(info.temperature, "22\u{b0}C (71\u{b0}F)");
    assert_eq!(info.dewpoint, "12\u{b0}C (53\u{b0}F)");
    assert_eq!(info.altimeter, "30.12 inches of mercury");
    assert_eq!(info.remarks, "Automated station. Rain ended at 42 minutes past the hour. No precipitation in past hour. Precise temperature: 25.0\u{b0}C / 12.5\u{b0}C");
    assert_eq!((info.zulu_day, info.zulu_hour, info.zulu_minute), (Some(25), Some(16), Some(51)));
    assert_eq!(info.altimeter_hpa, Some(1020));
    assert_eq!(info.altimeter_inches, Some(Inches { millionths: 30120000 }));
    assert_eq!(info.altimeter_default_unit, "inches");
    assert_eq!(info.raw, "KABC 251651Z 27015KT 10SM FEW250 22/12 A3012 RMK AO2 RAE42 P0000 T0250/0125 $ AO1");
}

#[test]
fn hail_in_a_thunderstorm() {
    let info = parse_metar("KABC 251651Z 09010KT 9999 -TSRAGR SCT020 OVC100 22/21 Q1003 RMK P0150", "XXXX");
    assert_eq!(info.station, "KABC");
    assert_eq!(info.date_time, "Day 25, 16:51Z");
    assert_eq!(info.wind, "90 degrees (E) at 10 knots");
    assert_eq!(info.visibility, "10 kilometers or more");
    assert_eq!(info.weather, "Light Thunderstorm rainhail");
    assert_eq!(info.clouds, "Scattered at 2000 feet, Overcast at 10000 feet");
    assert_eq!(info.temperature, "22\u{b0}C (71\u{b0}F)");
    assert_eq!(info.dewpoint, "21\u{b0}C (69\u{b0}F)");
    assert_eq!(info.altimeter, "1003 hectopascals");
    assert_eq!(info.remarks, "Precipitation: 1.5 inches");
    assert_eq!((info.zulu_day, info.zulu_hour, info.zulu_minute), (Some(25), Some(16), Some(51)));
    assert_eq!(info.altimeter_hpa, Some(1003));
    assert_eq!(info.altimeter_inches, Some(Inches { millionths: 29618561 }));
    assert_eq!(info.altimeter_default_unit, "hpa");
    assert_eq!(info.raw, "KABC 251651Z 09010KT 9999 -TSRAGR SCT020 OVC100 22/21 Q1003 RMK P0150");
}

#[test]
fn zero_everywhere() {
    let info = parse_metar("KABC 010000Z 18005KT 0000 FG VV001 00/00 A3000", "XXXX");
    assert_eq!(info.station, "KABC");
    assert_eq!(info.date_time, "Day 1, 0:00Z");
    assert_eq!(info.wind, "180 degrees (S) at 5 knots");
    assert_eq!(info.visibility, "0 meters");
    assert_eq!(info.weather, "fog");
    assert_eq!(info.clouds, "Sky obscured, vertical visibility 100 feet");
    assert_eq!(info.temperature, "0\u{b0}C (32\u{b0}F)");
    assert_eq!(info.dewpoint, "0\u{b0}C (32\u{b0}F)");
    assert_eq!(info.altimeter, "30.00 inches of mercury");
    assert_eq!(info.remarks, "");
    assert_eq!((info.zulu_day, info.zulu_hour, info.zulu_minute), (Some(1), Some(0), Some(0)));
    assert_eq!(info.altimeter_hpa, Some(1016));
    assert_eq!(info.altimeter_inches, Some(Inches { millionths: 30000000 }));
    assert_eq!(info.altimeter_default_unit, "inches");
    assert_eq!(info.raw, "KABC 010000Z 18005KT 0000 FG VV001 00/00 A3000");
}

#[test]
fn rare_phenomena() {
    let info = parse_metar("KABC 251651Z 27015KT 10SM UP FC SQ FEW010 BKN020TCU OVC030CB 05/M01 A2950", "XXXX");
    assert_eq!(info.station, "KABC");
    assert_eq!(info.date_time, "Day 25, 16:51Z");
    assert_eq!(info.wind, "270 degrees (W) at 15 knots");
    assert_eq!(info.visibility, "10 statute miles");
    assert_eq!(info.weather, "unknown precipitation, funnel cloud, squalls");
    assert_eq!(info.clouds, "Few at 1000 feet, Broken at 2000 feet (towering cumulus), Overcast at 3000 feet (cumulonimbus)");
    assert_eq!(info.temperature, "5\u{b0}C (41\u{b0}F)");
    assert_eq!(info.dewpoint, "-1\u{b0}C (31\u{b0}F)");
    assert_eq!(info.altimeter, "29.50 inches of mercury");
    assert_eq!(info.remarks, "");
    assert_eq!((info.zulu_day, info.zulu_hour, info.zulu_minute), (Some(25), Some(16), Some(51)));
    assert_eq!(info.altimeter_hpa, Some(999));
    assert_eq!(info.altimeter_inches, Some(Inches { millionths: 29500000 }));
    assert_eq!(info.altimeter_default_unit, "inches");
    assert_eq!(info.raw, "KABC 251651Z 27015KT 10SM UP FC SQ FEW010 BKN020TCU OVC030CB 05/M01 A2950");
}

#[test]
fn white_space_of_every_kind() {
    let info = parse_metar("  KABC\t251651Z\n27015KT   10SM  ", "XXXX");
    assert_eq!(info.station, "KABC");
    assert_eq!(info.date_time, "Day 25, 16:51Z");
    assert_eq!(info.wind, "270 degrees (W) at 15 knots");
    assert_eq!(info.visibility, "10 statute miles");
    assert_eq!(info.weather, "None");
    assert_eq!(info.clouds, "No cloud information");
    assert_eq!(info.temperature, "");
    assert_eq!(info.dewpoint, "");
    assert_eq!(info.altimeter, "");
    assert_eq!(info.remarks, "");
    assert_eq!((info.zulu_day, info.zulu_hour, info.zulu_minute), (Some(25), Some(16), Some(51)));
    assert_eq!(info.altimeter_hpa, None);
    assert_eq!(info.altimeter_inches, None);
    assert_eq!(info.altimeter_default_unit, "");
    assert_eq!(info.raw, "  KABC\t251651Z\n27015KT   10SM  ");
}

#[test]
fn decimal_miles() {
    let info = parse_metar("KABC 251651Z 27015KT 1.5SM BR OVC004 09/08 A2989 RMK AO2 P1.5 P0.0", "XXXX");
    assert_eq!(info.station, "KABC");
    assert_eq!(info.date_time, "Day 25, 16:51Z");
    assert_eq!(info.wind, "270 degrees (W) at 15 knots");
    assert_eq!(info.visibility, "1.5 statute miles");
    assert_eq!(info.weather, "mist");
    assert_eq!(info.clouds, "Overcast at 400 feet");
    assert_eq!(info.temperature, "9\u{b0}C (48\u{b0}F)");
    assert_eq!(info.dewpoint, "8\u{b0}C (46\u{b0}F)");
    assert_eq!(info.altimeter, "29.89 inches of mercury");
    assert_eq!(info.remarks, "Automated station. Precipitation: 0.015 inches. No precipitation in past hour");
    assert_eq!((info.zulu_day, info.zulu_hour, info.zulu_minute), (Some(25), Some(16), Some(51)));
    assert_eq!(info.altimeter_hpa, Some(1012));
    assert_eq!(info.altimeter_inches, Some(Inches { millionths: 29890000 }));
    assert_eq!(info.altimeter_default_unit, "inches");
    assert_eq!(info.raw, "KABC 251651Z 27015KT 1.5SM BR OVC004 09/08 A2989 RMK AO2 P1.5 P0.0");
}
