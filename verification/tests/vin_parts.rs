use vin_decode::clock::{ceiling_from, model_year_ceiling, this_year, year_of_seconds, ClockError};
use vin_decode::decode::{descriptor_readable, normalize_vin, pass_readable};
use vin_decode::element_attribute::attribute_table;
use vin_decode::text::{decimal_string, opt_decimal_string};
use vin_decode::vin::{
    code_class_matches, model_year_at, model_year_readable, wmi_readable, year_from_code,
    CodeClassMatches,
};
use vin_decode::core_rules::{core_readable, formula_keys, vin_keys};
use vin_decode::{
    element_attribute_value, offset_from, vin_descriptor, vin_model_year, vin_model_year_checked,
    vin_wmi, AttributeLookup,
};

#[test]
fn descriptor_masks_check_digit_and_keeps_eleven() {
    assert_eq!(vin_descriptor("1N4BZ0CP6HC303730"), "1N4BZ0CP*HC");
}

#[test]
fn descriptor_is_upper_cased() {
    assert_eq!(vin_descriptor("1n4bz0cp6hc303730"), "1N4BZ0CP*HC");
}

#[test]
fn descriptor_of_small_manufacturer_keeps_fourteen_as_given() {
    assert_eq!(vin_descriptor("ab9cdefghijklmnop"), "ab9cdefg*ijklm");
}

#[test]
fn descriptor_pads_short_vin_with_stars() {
    assert_eq!(vin_descriptor("abc"), "ABC********");
    assert_eq!(vin_descriptor(""), "***********");
}

#[test]
fn descriptor_readable_refuses_split_character() {
    assert!(descriptor_readable("1N4BZ0CP6HC303730"));
    assert!(!descriptor_readable("a\u{e9}"));
    assert!(descriptor_readable("ABCDEFGHI\u{e9}"));
}

#[test]
fn wmi_is_first_three_bytes() {
    assert_eq!(vin_wmi("1N4BZ0CP6HC303730"), "1N4");
    assert_eq!(vin_wmi("ABC"), "ABC");
}

#[test]
fn wmi_of_small_manufacturer_adds_bytes_twelve_to_fourteen() {
    assert_eq!(vin_wmi("1G9ABCDEFGHIJKLMN"), "1G9IJK");
    assert_eq!(vin_wmi("1G9ABCDEFGHIJK"), "1G9IJK");
}

#[test]
fn wmi_of_short_small_manufacturer_vin_is_three_bytes() {
    assert_eq!(vin_wmi("1G9AB"), "1G9");
    assert_eq!(vin_wmi("1G9ABCDEFGHIJ"), "1G9");
}

#[test]
fn wmi_readable_needs_three_bytes_on_boundaries() {
    assert!(wmi_readable("1N4BZ0CP6HC303730"));
    assert!(wmi_readable("ABC"));
    assert!(!wmi_readable("AB"));
    assert!(!wmi_readable("A\u{e9}"));
    assert!(!wmi_readable("1G9ABCDEFG\u{e9}JKL"));
    assert!(wmi_readable("1G9ABCDEFGH\u{e9}JK"));
    assert!(wmi_readable("1G9ABCDEFGHIJK"));
    assert!(wmi_readable("1N4ABCDEFGH\u{e9}JK"));
}

#[test]
fn offsets_from_base_character() {
    assert_eq!(offset_from("K", 'A'), Some(10));
    assert_eq!(offset_from("5", '1'), Some(4));
    assert_eq!(offset_from("A", 'K'), Some(-10));
    assert_eq!(offset_from("", 'A'), None);
    assert_eq!(offset_from("\u{e9}", 'A'), Some(0xc3 - 65));
}

fn no_match() -> CodeClassMatches {
    CodeClassMatches {
        a_to_h: Some(false),
        j_to_n: Some(false),
        r_to_t: Some(false),
        v_to_y: Some(false),
        one_to_nine: Some(false),
        p_only: Some(false),
    }
}

#[test]
fn code_classes_of_letters_and_digits() {
    let m = code_class_matches("K");
    assert_eq!(m.a_to_h, Some(false));
    assert_eq!(m.j_to_n, Some(true));
    assert_eq!(m.r_to_t, Some(false));
    assert_eq!(m.v_to_y, Some(false));
    assert_eq!(m.one_to_nine, Some(false));
    assert_eq!(m.p_only, Some(false));
    let d = code_class_matches("7");
    assert_eq!(d.one_to_nine, Some(true));
    assert_eq!(d.a_to_h, Some(false));
    let p = code_class_matches("P");
    assert_eq!(p.p_only, Some(true));
    assert_eq!(p.j_to_n, Some(false));
    let z = code_class_matches("0");
    assert_eq!(z.one_to_nine, Some(false));
}

#[test]
fn year_codes_of_each_class() {
    let mut m = no_match();
    m.a_to_h = Some(true);
    assert_eq!(year_from_code("A", &m, 2025), Some(2010));
    assert_eq!(year_from_code("H", &m, 2025), Some(2017));
    let mut m = no_match();
    m.j_to_n = Some(true);
    assert_eq!(year_from_code("J", &m, 2025), Some(2018));
    assert_eq!(year_from_code("N", &m, 2025), Some(2022));
    let mut m = no_match();
    m.r_to_t = Some(true);
    assert_eq!(year_from_code("R", &m, 2025), Some(2024));
    assert_eq!(year_from_code("T", &m, 2025), Some(2026));
    let mut m = no_match();
    m.v_to_y = Some(true);
    assert_eq!(year_from_code("V", &m, 2030), Some(2027));
    assert_eq!(year_from_code("Y", &m, 2030), Some(2030));
    let mut m = no_match();
    m.one_to_nine = Some(true);
    assert_eq!(year_from_code("1", &m, 2035), Some(2031));
    assert_eq!(year_from_code("9", &m, 2040), Some(2039));
    let mut m = no_match();
    m.p_only = Some(true);
    assert_eq!(year_from_code("P", &m, 2025), Some(2023));
    assert_eq!(year_from_code("Z", &no_match(), 2025), None);
}

#[test]
fn year_code_after_next_year_moves_back_thirty_years() {
    let mut m = no_match();
    m.j_to_n = Some(true);
    assert_eq!(year_from_code("K", &m, 2024), Some(2019));
    assert_eq!(year_from_code("K", &m, 2010), Some(1989));
    let mut m = no_match();
    m.v_to_y = Some(true);
    assert_eq!(year_from_code("Y", &m, 2025), Some(2000));
    let mut m = no_match();
    m.r_to_t = Some(true);
    assert_eq!(year_from_code("T", &m, 2025), Some(2026));
    assert_eq!(year_from_code("T", &m, 2024), Some(1996));
}

#[test]
fn year_code_with_failed_pattern_gives_none() {
    let mut m = no_match();
    m.a_to_h = None;
    assert_eq!(year_from_code("H", &m, 2025), None);
    let mut m = no_match();
    m.one_to_nine = None;
    assert_eq!(year_from_code("P", &m, 2025), None);
}

#[test]
fn model_year_window_on_concrete_codes() {
    for current in [2008, 2015, 2025, 2038] {
        for code in ["A", "H", "J", "N", "R", "T", "V", "Y", "1", "9"] {
            let upper = format!("1N4BZ0CP6{}C303730", code);
            let y = model_year_at(&upper, current).unwrap();
            assert!(current - 28 <= y && y <= current + 1, "{} {} {}", code, current, y);
        }
    }
}

#[test]
fn model_year_never_after_next_year() {
    for current in [2008, 2030, 2050, 2500] {
        for code in ["A", "H", "K", "S", "Y", "1", "9", "P"] {
            let upper = format!("1N4BZ0CP6{}C303730", code);
            let y = model_year_at(&upper, current).unwrap();
            assert!(y <= current + 1, "{} {} {}", code, current, y);
        }
    }
}

#[test]
fn model_year_at_reads_position_ten() {
    assert_eq!(model_year_at("1N4BZ0CP6HC303730", 2025), Some(2017));
    assert_eq!(model_year_at("1N4BZ0CP6SC303730", 2025), Some(2025));
    assert_eq!(model_year_at("1N4BZ0CP6SC303730", 2020), Some(1995));
    assert_eq!(model_year_at("1N4BZ0CP61C303730", 2025), Some(2001));
    assert_eq!(model_year_at("1N4BZ0CP6PC303730", 2025), Some(2023));
    assert_eq!(model_year_at("1N4BZ0CP6ZC303730", 2025), None);
    assert_eq!(model_year_at("1N4BZ0CP6IC303730", 2025), None);
    assert_eq!(model_year_at("1N4BZ0CP60C303730", 2025), None);
    assert_eq!(model_year_at("1N4BZ0CP6", 2025), None);
}

#[test]
fn vin_model_year_reads_the_clock() {
    let now = this_year().unwrap();
    assert!(now >= 2024);
    assert_eq!(vin_model_year("1N4BZ0CP6HC303730"), Ok(Some(2017)));
    assert_eq!(vin_model_year("1n4bz0cp6hc303730"), Ok(Some(2017)));
    assert_eq!(vin_model_year("short"), Ok(None));
    assert_eq!(vin_model_year("1N4BZ0CP6"), Ok(None));
    assert_eq!(vin_model_year("1N4BZ0CP6UC303730"), Ok(None));
    assert_eq!(vin_model_year("1N4BZ0CP60C303730"), Ok(None));
    let expected = if 2031 > now + 1 { 2001 } else { 2031 };
    assert_eq!(vin_model_year("1N4BZ0CP61C303730"), Ok(Some(expected)));
}

#[test]
fn checked_model_year_refuses_split_character() {
    assert_eq!(vin_model_year_checked("1N4BZ0CP6HC303730"), Some(Ok(Some(2017))));
    assert_eq!(vin_model_year_checked("ABCDEFGHI\u{e9}"), None);
    assert_eq!(vin_model_year_checked("ABC"), Some(Ok(None)));
    assert!(!model_year_readable("ABCDEFGHI\u{c9}"));
    assert!(!model_year_readable("ABCDEFGH\u{c9}"));
    assert!(model_year_readable("ABCDEFGHIJ\u{c9}"));
}

#[test]
fn ceiling_is_the_year_after_this_one() {
    let now = this_year().unwrap();
    let ceiling = model_year_ceiling().unwrap();
    assert!(ceiling == now + 1 || ceiling == now + 2);
}

#[test]
fn keys_of_full_vin() {
    assert_eq!(vin_keys("1N4BZ0CP6HC303730"), "BZ0CP|HC303730");
    assert_eq!(vin_keys("1N4BZ0CP6"), "BZ0CP");
    assert_eq!(vin_keys("1N4"), "");
}

#[test]
fn readable_by_a_pass() {
    assert!(core_readable("1N4BZ0CP6HC303730"));
    assert!(core_readable("1N4BZ0CP6"));
    assert!(core_readable("1N4"));
    assert!(!core_readable("1N"));
    assert!(!core_readable("1N4BZ0CP6HC30"));
    assert!(!core_readable("1N4BZ"));
    assert!(pass_readable("1N4BZ0CP6HC303730XYZ"));
}

#[test]
fn formula_keys_replace_digits() {
    assert_eq!(formula_keys("BZ0CP|HC303730"), Some("BZ#CP|HC######".to_string()));
    assert_eq!(formula_keys(""), Some(String::new()));
}

#[test]
fn normalize_trims_and_upper_cases() {
    assert_eq!(normalize_vin("  1n4bz0cp6hc303730 \n"), "1N4BZ0CP6HC303730");
    assert_eq!(normalize_vin("\t"), "");
    assert_eq!(normalize_vin("\u{3000}ab c\u{a0}\u{2009}"), "AB C");
    assert_eq!(normalize_vin("\u{200b}x"), "\u{200b}X");
    assert_eq!(normalize_vin("stra\u{df}e"), "STRASSE");
}

#[test]
fn decimal_rendering() {
    assert_eq!(decimal_string(0), "0");
    assert_eq!(decimal_string(2019), "2019");
    assert_eq!(decimal_string(-120), "-120");
    assert_eq!(decimal_string(i32::MIN), "-2147483648");
    assert_eq!(decimal_string(i32::MAX), "2147483647");
    assert_eq!(opt_decimal_string(Some(7)), Some("7".to_string()));
    assert_eq!(opt_decimal_string(None), None);
}

#[test]
fn attribute_tables_of_elements() {
    assert_eq!(attribute_table(26), Some("make"));
    assert_eq!(attribute_table(55), Some("air_bag_locations"));
    assert_eq!(attribute_table(195), Some("non_land_use"));
    assert_eq!(attribute_table(29), None);
    assert_eq!(attribute_table(-1), None);
}

#[test]
fn attribute_value_from_table() {
    match element_attribute_value(26, 474) {
        AttributeLookup::Table { table, attribute_id } => {
            assert_eq!(table, "make");
            assert_eq!(attribute_id, 474);
        }
        AttributeLookup::Value(_) => panic!("element 26 has a table"),
    }
}

#[test]
fn attribute_value_as_decimal() {
    match element_attribute_value(29, 2019) {
        AttributeLookup::Value(v) => assert_eq!(v, "2019"),
        AttributeLookup::Table { .. } => panic!("element 29 has no table"),
    }
    match element_attribute_value(157, -3) {
        AttributeLookup::Value(v) => assert_eq!(v, "-3"),
        AttributeLookup::Table { .. } => panic!("element 157 has no table"),
    }
}

#[test]
fn descriptor_of_a_descriptor_is_itself() {
    for v in ["1N4BZ0CP6HC303730", "1n4bz0cp6hc303730", "ab9cdefghijklmnop", "abc", "", "1G9AB", "x9"] {
        let d = vin_descriptor(v);
        assert_eq!(vin_descriptor(&d), d, "{}", v);
    }
}

#[test]
fn wmi_agrees_with_descriptor() {
    for v in ["1N4BZ0CP6HC303730", "1G9ABCDEFGHIJKLMN", "1G9ABCDEFGHIJK", "1G9AB", "ABC"] {
        let w = vin_wmi(v);
        let d = vin_descriptor(v);
        assert_eq!(w[..3], d[..3], "{}", v);
        if w.len() == 6 {
            assert_eq!(w[3..6], d[11..14], "{}", v);
        }
    }
}

#[test]
fn model_year_reads_only_position_ten_in_any_case() {
    let now = this_year().unwrap();
    assert_eq!(model_year_at("1N4BZ0CP6HC303730", now), model_year_at("ZZZZZZZZZHZZ", now));
    assert_eq!(vin_model_year("1n4bz0cp6hc303730"), vin_model_year("AAAAAAAAAH"));
    assert_eq!(vin_model_year("1n4bz0cp6kc303730"), vin_model_year("qqqqqqqqqK"));
}

#[test]
fn years_of_seconds_since_the_epoch() {
    assert_eq!(year_of_seconds(0), Ok(1970));
    assert_eq!(year_of_seconds(1_700_000_000), Ok(2023));
    assert_eq!(year_of_seconds(1_735_689_600), Ok(2025));
    assert_eq!(year_of_seconds(1_735_689_599), Ok(2024));
    assert_eq!(year_of_seconds(8_000_000_000_000).map(|y| y > 200_000), Ok(true));
    assert_eq!(year_of_seconds(9_000_000_000_000), Err(ClockError::OutOfRange));
    assert_eq!(year_of_seconds(u64::MAX), Err(ClockError::OutOfRange));
}

#[test]
fn ceiling_is_next_year_or_the_clock_error() {
    assert_eq!(ceiling_from(Ok(2025)), Ok(2026));
    assert_eq!(ceiling_from(Err(ClockError::BeforeEpoch)), Err(ClockError::BeforeEpoch));
    assert_eq!(ceiling_from(Err(ClockError::OutOfRange)), Err(ClockError::OutOfRange));
}

#[test]
fn descriptor_ignores_check_digit_and_tail() {
    assert_eq!(vin_descriptor("1N4BZ0CP6HC303730"), vin_descriptor("1N4BZ0CPXHCQQQ"));
    assert_eq!(vin_descriptor("ab9cdefghijklmnop"), vin_descriptor("ab9cdefg0ijklmZZZ"));
}
