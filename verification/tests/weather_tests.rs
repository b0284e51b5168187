use eink_clock::text::{chars_of, find, stands_at};
use eink_clock::weather::{
    check_report, find_variation, holds_blank_range, is_blank_range, is_whitespace,
    parse_metar_data, report_url, Direction, DirectionalVector, Distance, ObservationType, Remark,
    ReportError,
};

const REPORT: &str = "EGHI 282120Z 19015KT 140V220 6000 RA SCT006 BKN009 16/14 Q1006";

fn chars(text: &str) -> Vec<char> {
    text.chars().collect()
}

#[test]
fn a_bare_report_is_taken_whole() {
    assert_eq!(parse_metar_data(REPORT), Ok(REPORT));
}

#[test]
fn the_report_is_picked_from_between_the_tags() {
    let data = format!("<METAR>\n  <raw_text>{}</raw_text>\n  <station_id>EGHI</station_id>", REPORT);
    assert_eq!(parse_metar_data(&data), Ok(REPORT));
}

#[test]
fn the_first_pair_of_tags_counts() {
    let data = format!("<raw_text>{}</raw_text><raw_text>junk</raw_text>", REPORT);
    assert_eq!(parse_metar_data(&data), Ok(REPORT));
}

#[test]
fn without_a_closing_tag_the_report_runs_to_the_end() {
    let data = format!("<x><raw_text>{}", REPORT);
    assert_eq!(parse_metar_data(&data), Ok(REPORT));
}

#[test]
fn characters_beyond_ascii_before_the_tags_do_not_shift_the_report() {
    let data = format!("\u{e9}\u{1F327}<raw_text>{}</raw_text>\u{263c}", REPORT);
    assert_eq!(parse_metar_data(&data), Ok(REPORT));
}

#[test]
fn a_closing_tag_before_the_opening_tag_gives_nothing() {
    let data = format!("</raw_text><raw_text>{}", REPORT);
    assert_eq!(parse_metar_data(&data), Err(ReportError::Misplaced));
    assert_eq!(parse_metar_data("<raw_</raw_text><raw_text>"), Err(ReportError::Misplaced));
}

#[test]
fn text_that_is_no_report_gives_nothing() {
    assert_eq!(parse_metar_data(""), Err(ReportError::Rejected));
    assert_eq!(parse_metar_data("hello"), Err(ReportError::Rejected));
    assert_eq!(parse_metar_data("<raw_text></raw_text>"), Err(ReportError::Rejected));
    assert_eq!(parse_metar_data("<raw_text>EGHI</raw_text>"), Err(ReportError::Rejected));
    assert_eq!(parse_metar_data("</raw_text> only the end"), Err(ReportError::Rejected));
}

#[test]
fn a_report_is_checked_by_the_parser() {
    assert_eq!(check_report(REPORT), Ok(()));
    assert_eq!(check_report("KTPA 281953Z 09008KT 10SM FEW040 SCT250 27/17 A3012"), Ok(()));
    assert_eq!(check_report("EGHI 282120"), Err(ReportError::Rejected));
    assert_eq!(check_report("egHI 282120Z 19015KT"), Err(ReportError::Rejected));
    assert_eq!(check_report(""), Err(ReportError::Rejected));
}

const FOG: &str = "EGHI 150650Z 06001KT 0500 R20/1000 FG VV/// 11/10 Q1003";

#[test]
fn a_report_with_unmeasured_vertical_visibility_is_taken() {
    assert!(!holds_blank_range(&chars(FOG)));
    assert_eq!(check_report(FOG), Ok(()));
    assert_eq!(parse_metar_data(FOG), Ok(FOG));
    let data = format!("<METAR><raw_text>{}</raw_text></METAR>", FOG);
    assert_eq!(parse_metar_data(&data), Ok(FOG));
}

#[test]
fn only_two_directions_side_by_side_make_a_range() {
    for text in [
        "G VV///", "370V///", "///V370", "VRBV999", "12 VVRB", "VRBVKT ", "090V180", "///v///",
        "VRBV18", "///V09", "", "VRB", "///V",
    ] {
        assert!(!is_blank_range(&chars(text), 0));
    }
    for text in ["///V///", "VRBVVRB", "VRBV///", "000VVRB", "369V///", "///V299", "299VVRB9"] {
        assert!(is_blank_range(&chars(text), 0));
    }
    assert!(is_blank_range(&chars("0369V///0"), 1));
    assert!(!is_blank_range(&chars("0369V///0"), 0));
    assert!(!is_blank_range(&chars("0369V///0"), 2));
    assert!(!is_blank_range(&chars("369V///"), usize::MAX));
}

#[test]
fn the_range_is_looked_for_behind_station_time_method_and_wind() {
    assert_eq!(find_variation(&chars("EGHI 282120Z 19015KT 140V220 6000")), Some(21));
    assert_eq!(find_variation(&chars("EGHI 282120Z 140V220")), Some(13));
    assert_eq!(find_variation(&chars("EGHI282120Z140V220")), Some(11));
    assert_eq!(find_variation(&chars("  EGHI  282120Z  AUTO  CALM  140V220")), Some(29));
    assert_eq!(find_variation(&chars("EGHI 282120Z COR VRB02G15MPS")), Some(28));
    assert_eq!(find_variation(&chars("EGHI 282120Z /////KT 9999")), Some(21));
    assert_eq!(find_variation(&chars("EGHI 282120Z 190P149KPH 9999")), Some(24));
    assert_eq!(find_variation(&chars("EGHI 282120Z 36015G25KT   ")), Some(26));
    assert_eq!(find_variation(&chars("EGHI 282120Z RMK VRBV180")), Some(13));
    assert_eq!(find_variation(&chars("EGHI 312359Z")), Some(12));
    assert_eq!(find_variation(&chars("EGHI 000000Z")), Some(12));
}

#[test]
fn a_group_that_is_no_wind_is_not_stepped_over() {
    for wind in ["19015", "1901KT", "19015G2KT", "37015KT", "190/KT", "CAL", "19015KN", "190P1KT"] {
        let text = format!("EGHI 282120Z {} 9999", wind);
        assert_eq!(find_variation(&chars(&text)), Some(13));
    }
    assert_eq!(find_variation(&chars("EGHI 282120Z AUT 9999")), Some(13));
    assert_eq!(find_variation(&chars("EGHI 282120Z AUTOCOR 9999")), Some(17));
}

#[test]
fn a_text_that_does_not_begin_as_a_report_has_no_such_place() {
    for text in [
        "", "   ", "EGH 282120Z", "eghi 282120Z", "EGHIX 282120Z", "EGHI 322120Z", "EGHI 282420Z",
        "EGHI 282160Z", "EGHI 282120", "EGHI 282120z", "EGHI\t282120Z", "\u{e9}GHI 282120Z", "VRBV180",
        "///V090", "EGHI", "2821",
    ] {
        assert_eq!(find_variation(&chars(text)), None);
        assert!(!holds_blank_range(&chars(text)));
    }
}

#[test]
fn a_range_without_a_number_is_turned_away_where_the_parser_reads_it() {
    for text in [
        "EGHI 282120Z VRBV180 9999",
        "EGHI 282120Z ///V090 9999",
        "EGHI 282120Z 19015KT 090V/// 9999",
        "EGHI 282120Z 19015KT090VVRB",
        "EGHI282120ZAUTO19015G25KTVRBVVRB",
        " EGHI 282120Z COR CALM ///V///",
    ] {
        assert!(holds_blank_range(&chars(text)));
        assert_eq!(check_report(text), Err(ReportError::BlankRange));
        assert_eq!(parse_metar_data(text), Err(ReportError::BlankRange));
    }
    assert_eq!(
        parse_metar_data("<raw_text>EGHI 282120Z 090VVRB</raw_text>"),
        Err(ReportError::BlankRange)
    );
    assert_eq!(parse_metar_data("VRBV180<raw_text>EGHI</raw_text>"), Err(ReportError::Rejected));
    assert!(!holds_blank_range(&chars(REPORT)));
    assert!(!holds_blank_range(&chars("EGHI 282120Z VRB02KT VV003")));
}

#[test]
fn a_range_without_a_number_elsewhere_is_left_to_the_parser() {
    let remarked = "KTPA 282120Z 19015KT 10SM FEW040 26/19 A2992 RMK AO2 VRBV180";
    assert!(!holds_blank_range(&chars(remarked)));
    assert_eq!(check_report(remarked), Ok(()));
    assert_eq!(parse_metar_data(remarked), Ok(remarked));
    let short = "KTPA 282120Z RMK VRBV180";
    assert_eq!(check_report(short), Ok(()));
    let data = format!("<raw_text>{}</raw_text>", remarked);
    assert_eq!(parse_metar_data(&data), Ok(remarked));
    for text in [
        "EGHI 282120Z 19015KT 9999 ///V090",
        "EGHI 282120Z 19015KT 140V220 VRBV180",
        "EGHI 282120Z 9999 VRBV180 16/14 Q1006",
    ] {
        assert!(!holds_blank_range(&chars(text)));
        assert_ne!(check_report(text), Err(ReportError::BlankRange));
    }
}

#[test]
fn no_text_that_begins_as_a_report_upsets_the_parser() {
    let stations = ["EGHI", " EGHI", "EGHIX"];
    let times = ["282120Z", "312359Z", "282460Z"];
    let methods = ["", "AUTO", "COR", "AUT", "AUTOCOR"];
    let winds = [
        "", "CALM", "19015KT", "VRB02KT", "/////KT", "190P15G25MPS", "36099KPH", "190150KT",
        "1901KT", "19015", "19015G2KT", "37015KT", "190//KT", "///15KT", "19015GKT", "CAL", "P15KT",
    ];
    let ranges = [
        "VRBV180", "///V090", "090V///", "090VVRB", "180V240", "VRBVVRB", "370V///", "VV///", "",
    ];
    let mut taken = 0;
    let mut refused = 0;
    let mut accepted = 0;
    for station in stations {
        for time in times {
            for method in methods {
                for wind in winds {
                    for range in ranges {
                        for glue in ["", " "] {
                            for end in ["", " 9999 16/14 Q1006 RMK VRBV180"] {
                                let text = [station, time, method, wind, range].join(glue) + end;
                                match check_report(&text) {
                                    Ok(()) => accepted += 1,
                                    Err(ReportError::BlankRange) => refused += 1,
                                    Err(_) => {}
                                }
                                taken += 1;
                            }
                        }
                    }
                }
            }
        }
    }
    assert_eq!(taken, 3 * 3 * 5 * 17 * 9 * 2 * 2);
    assert!(accepted > 0);
    assert!(refused > 0);
}

#[test]
fn remarks_name_the_kind_of_station() {
    assert_eq!(
        Remark::parse_from_str("AO2 SLP199 T02670172").observation_type(),
        Some(ObservationType::AutomatedWithPrecipitationDiscriminator)
    );
    assert_eq!(
        Remark::parse_from_str("SLP199 AO1").observation_type(),
        Some(ObservationType::AutomatedWithoutPrecipitationDiscriminator)
    );
    assert_eq!(
        Remark::parse_from_str("AO1").observation_type(),
        Some(ObservationType::AutomatedWithoutPrecipitationDiscriminator)
    );
}

#[test]
fn remarks_without_a_station_term_say_nothing() {
    assert_eq!(Remark::parse_from_str("").observation_type(), None);
    assert_eq!(Remark::parse_from_str("   ").observation_type(), None);
    assert_eq!(Remark::parse_from_str("SLP199 T02670172").observation_type(), None);
    assert_eq!(Remark::parse_from_str("AO3 AO AO22 XAO2 AO2X ao2").observation_type(), None);
    assert_eq!(Remark::default().observation_type(), None);
    assert_eq!(Remark::parse_from_str("nothing"), Remark::default());
}

#[test]
fn the_last_station_term_decides() {
    assert_eq!(
        Remark::parse_from_str("AO2 AO1").observation_type(),
        Some(ObservationType::AutomatedWithoutPrecipitationDiscriminator)
    );
    assert_eq!(
        Remark::parse_from_str("AO1 x AO2 y").observation_type(),
        Some(ObservationType::AutomatedWithPrecipitationDiscriminator)
    );
    assert_eq!(
        Remark::parse_from_str("AO1 AO2 AO1X").observation_type(),
        Some(ObservationType::AutomatedWithPrecipitationDiscriminator)
    );
}

#[test]
fn terms_are_parted_by_any_white_space() {
    assert_eq!(
        Remark::parse_from_str("\tAO2\n").observation_type(),
        Some(ObservationType::AutomatedWithPrecipitationDiscriminator)
    );
    assert_eq!(
        Remark::parse_from_str("x\u{a0}AO1\u{3000}y").observation_type(),
        Some(ObservationType::AutomatedWithoutPrecipitationDiscriminator)
    );
    assert_eq!(Remark::parse_from_str("x\u{200b}AO1").observation_type(), None);
    assert_eq!(Remark::parse_from_str("x-AO1").observation_type(), None);
}

#[test]
fn remarks_read_as_split_whitespace_does() {
    let samples = [
        "AO2",
        " AO1 ",
        "AO1 AO2",
        "AO2  AO1\tAO2\r\nAO1",
        "AO1AO2",
        "AO2\u{2003}rest",
        "a b c",
        "\u{85}AO1\u{2028}",
        "AO",
        "O2 A AO2",
    ];
    for sample in samples {
        let mut expected = None;
        for term in sample.split_whitespace() {
            if term == "AO2" {
                expected = Some(ObservationType::AutomatedWithPrecipitationDiscriminator);
            } else if term == "AO1" {
                expected = Some(ObservationType::AutomatedWithoutPrecipitationDiscriminator);
            }
        }
        assert_eq!(Remark::parse_from_str(sample).observation_type(), expected);
    }
}

#[test]
fn white_space_is_what_the_standard_library_calls_so() {
    for code in 0..0x11_0000u32 {
        if let Some(c) = char::from_u32(code) {
            assert_eq!(is_whitespace(c), c.is_whitespace());
        }
    }
}

#[test]
fn directions_can_be_told_apart() {
    let seen = DirectionalVector { distance: Some(Distance::Distant), direction: Direction::NW };
    assert_eq!(seen.direction, Direction::NW);
    assert_ne!(seen.direction, Direction::NE);
    assert_eq!(seen.distance, Some(Distance::Distant));
    let near = DirectionalVector { distance: None, direction: Direction::S };
    assert_ne!(seen, near);
}

#[test]
fn characters_of_a_text() {
    assert_eq!(chars_of(""), Vec::<char>::new());
    assert_eq!(chars_of("a\u{e9}\u{1F327}z"), vec!['a', '\u{e9}', '\u{1F327}', 'z']);
}

#[test]
fn finding_one_text_in_another() {
    let hay = chars("abcabcabd");
    assert_eq!(find(&hay, &chars("abc")), Some(0));
    assert_eq!(find(&hay, &chars("abd")), Some(6));
    assert_eq!(find(&hay, &chars("bca")), Some(1));
    assert_eq!(find(&hay, &chars("abe")), None);
    assert_eq!(find(&hay, &chars("")), Some(0));
    assert_eq!(find(&hay, &chars("abcabcabda")), None);
    assert_eq!(find(&chars(""), &chars("")), Some(0));
    assert_eq!(find(&chars(""), &chars("a")), None);
    assert!(stands_at(&hay, &chars("abd"), 6));
    assert!(!stands_at(&hay, &chars("abd"), 7));
    assert!(!stands_at(&hay, &chars("abd"), 100));
    assert!(stands_at(&hay, &chars(""), 9));
    assert!(!stands_at(&hay, &chars(""), 10));
}

#[test]
fn the_station_ends_the_address_of_its_reports() {
    assert_eq!(
        report_url("KTPA"),
        "https://www.aviationweather.gov/adds/dataserver_current/httpparam?datasource=metars&requesttype=retrieve&format=xml&hoursBeforeNow=1.25&mostRecentForEachStation=constraint&stationString=KTPA"
    );
    assert!(report_url("").ends_with("stationString="));
}

#[test]
fn no_report_like_text_upsets_the_check() {
    let tokens = [
        "VRB", "///", "090", "360", "V", "KT", "MPS", "05", " ", "G20", "CALM", "9999",
        "0800", "////", "RA", "+TSRA", "VCSH", "Q1006", "A2992", "Q////", "10SM", "1/2SM",
        "1 1/2SM", "M05/M10", "16/14", "///", "//", "FEW040", "BKN///", "OVC010CB", "//////",
        "RMK", "AO2", "=", "R24/M1500", "R24L/0800V1200U", "NOSIG", "TEMPO", "BECMG", "VV003",
        "VV///", "WS", "RERA", "CB/NE", "CAVOK", "SKC", "NCD", "AUTO", "COR", "220V280",
        "19015KT", "VRB02KT", "/////KT", "00000KT",
    ];
    let mut taken = 0;
    let mut accepted = 0;
    for first in tokens {
        for second in tokens {
            for glue in ["", " "] {
                for end in ["", " 16/14 Q1006", " 6000 RA SCT006 16/14 Q1006 RMK AO2"] {
                    let text = format!("EGHI 282120Z {}{}{}{}", first, glue, second, end);
                    match check_report(&text) {
                        Ok(()) => {
                            accepted += 1;
                            assert_eq!(parse_metar_data(&text), Ok(text.as_str()));
                        }
                        Err(error) => assert_eq!(parse_metar_data(&text), Err(error)),
                    }
                    taken += 1;
                }
            }
        }
    }
    assert_eq!(taken, tokens.len() * tokens.len() * 6);
    assert!(accepted > 0);
    assert!(accepted < taken);
}

#[test]
fn every_time_of_the_month_is_read_as_one() {
    for day in 0..32 {
        for hour in 0..24 {
            for minute in 0..60 {
                let text = format!("EGHI {:02}{:02}{:02}Z VRBV180", day, hour, minute);
                assert_eq!(find_variation(&chars(&text)), Some(13));
                assert_eq!(check_report(&text), Err(ReportError::BlankRange));
            }
        }
    }
    for time in ["320000Z", "002400Z", "000060Z", "990000Z", "0000000Z"] {
        let text = format!("EGHI {} VRBV180", time);
        assert_eq!(find_variation(&chars(&text)), None);
        assert_eq!(check_report(&text), Err(ReportError::Rejected));
    }
}

#[test]
fn every_shape_of_wind_is_stepped_over() {
    let mut seen = 0;
    for direction in ["000", "299", "300", "369", "VRB", "///"] {
        for (mark, figures) in [("", "//"), ("", "00"), ("", "99"), ("", "100"), ("", "999"), ("P", "00"), ("P", "999")] {
            let speed = format!("{}{}", mark, figures);
            for gust in ["", "G00", "G99"] {
                for unit in ["KT", "MPS", "KPH"] {
                    for glue in ["", " "] {
                        let wind = format!("{}{}{}{}", direction, speed, gust, unit);
                        let text = format!("EGHI 282120Z {}{}///V090", wind, glue);
                        assert_eq!(
                            find_variation(&chars(&text)),
                            Some(13 + wind.len() + glue.len())
                        );
                        assert_eq!(check_report(&text), Err(ReportError::BlankRange));
                        let plain = format!("EGHI 282120Z {}{}090V180", wind, glue);
                        assert_ne!(check_report(&plain), Err(ReportError::BlankRange));
                        seen += 1;
                    }
                }
            }
        }
    }
    assert_eq!(seen, 6 * 7 * 3 * 3 * 2);
}

#[test]
fn any_station_of_four_capitals_is_read_as_one() {
    for first in ['A', 'K', 'Z'] {
        for last in ['A', 'M', 'Z'] {
            let text = format!("{}GH{}282120Z///V///", first, last);
            assert_eq!(find_variation(&chars(&text)), Some(11));
            assert_eq!(check_report(&text), Err(ReportError::BlankRange));
        }
    }
    for station in ["EGH1", "EG-I", "eGHI", "EGH ", "@GHI", "[GHI"] {
        let text = format!("{}282120Z///V///", station);
        assert_eq!(find_variation(&chars(&text)), None);
        assert_eq!(check_report(&text), Err(ReportError::Rejected));
    }
}
