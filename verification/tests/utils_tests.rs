use market_sz::errors::MarketError;
use market_sz::utils::{
    check_time_at, decimal_bytes, div_accurate, gb2312_to_string, get_line_number, hex_ncr_escape,
    is_dept, is_fund, parse_i64, parse_u32, str_eq, string_to_gb2312, trading_phase_to_u32, translate,
    utf8_to_string, SaveSchedule,
};

#[test]
fn line_numbers_of_the_trading_day() {
    assert_eq!(get_line_number(93000), 0);
    assert_eq!(get_line_number(93100), 1);
    assert_eq!(get_line_number(103000), 60);
    assert_eq!(get_line_number(113000), 120);
    assert_eq!(get_line_number(120000), 120);
    assert_eq!(get_line_number(130000), 121);
    assert_eq!(get_line_number(145959), 240);
    assert_eq!(get_line_number(150000), 241);
    assert_eq!(get_line_number(153000), 241);
    assert_eq!(get_line_number(92600), 0);
    assert_eq!(get_line_number(90000), 0);
    assert_eq!(get_line_number(80000), 241);
}

#[test]
fn trading_phase_codes() {
    assert_eq!(trading_phase_to_u32(b"S0"), 1);
    assert_eq!(trading_phase_to_u32(b"O0"), 2);
    assert_eq!(trading_phase_to_u32(b"T0"), 4);
    assert_eq!(trading_phase_to_u32(b"B0"), 5);
    assert_eq!(trading_phase_to_u32(b"C0"), 8);
    assert_eq!(trading_phase_to_u32(b"E0"), 6);
    assert_eq!(trading_phase_to_u32(b"H0"), 7);
    assert_eq!(trading_phase_to_u32(b"A0"), 13);
    assert_eq!(trading_phase_to_u32(b"V0"), 14);
    assert_eq!(trading_phase_to_u32(b"X0"), 0);
    assert_eq!(trading_phase_to_u32(b"T1"), 9);
    assert_eq!(trading_phase_to_u32(b"T"), 4);
    assert_eq!(trading_phase_to_u32(b""), 0);
}

#[test]
fn rounding_division() {
    assert_eq!(div_accurate(12345, 10), 1235);
    assert_eq!(div_accurate(12344, 10), 1234);
    assert_eq!(div_accurate(1549, 100), 15);
    assert_eq!(div_accurate(1550, 100), 16);
    assert_eq!(div_accurate(1500, 1000), 2);
    assert_eq!(div_accurate(1499, 1000), 1);
    assert_eq!(div_accurate(7, 3), 2);
    assert_eq!(div_accurate(100, 0), 0);
    assert_eq!(div_accurate(100, -10), 0);
    assert_eq!(div_accurate(-15, 10), u32::MAX);
}

#[test]
fn rounding_is_half_up_on_non_negative_values() {
    for f in [10i32, 100, 1000] {
        for v in 0i64..5000 {
            assert_eq!(div_accurate(v, f), ((v + f as i64 / 2) / f as i64) as u32);
        }
    }
    assert_eq!(div_accurate(-6, 10), 0);
}

#[test]
fn bond_and_fund_prefixes() {
    for c in ["100001", "112233", "131810"] {
        assert!(is_dept(&c.to_string()));
        assert!(!is_fund(&c.to_string()));
    }
    for c in ["150001", "160001", "180001"] {
        assert!(is_fund(&c.to_string()));
        assert!(!is_dept(&c.to_string()));
    }
    for c in ["000001", "140001", "1", ""] {
        assert!(!is_dept(&c.to_string()));
        assert!(!is_fund(&c.to_string()));
    }
}

#[test]
fn index_codes_translate() {
    assert_eq!(translate(&"399001".to_string()), Some("395099".to_string()));
    assert_eq!(translate(&"399002".to_string()), Some("395001".to_string()));
    assert_eq!(translate(&"399003".to_string()), Some("395002".to_string()));
    assert_eq!(translate(&"399005".to_string()), Some("395003".to_string()));
    assert_eq!(translate(&"399006".to_string()), Some("395004".to_string()));
    assert_eq!(translate(&"399004".to_string()), None);
    assert_eq!(translate(&"".to_string()), None);
}

#[test]
fn string_equality() {
    assert!(str_eq("abc", "abc"));
    assert!(!str_eq("abc", "abd"));
    assert!(!str_eq("abc", "ab"));
    assert!(str_eq("", ""));
}

#[test]
fn utf8_decoding() {
    assert_eq!(utf8_to_string(b"000001"), "000001");
    assert_eq!(utf8_to_string(&[0x41, 0xff, 0x42]), "A\u{fffd}B");
}

#[test]
fn trading_window() {
    assert_eq!(check_time_at(9, 30, 0), Ok(930));
    assert_eq!(check_time_at(8, 31, 4), Ok(831));
    assert_eq!(check_time_at(15, 29, 2), Ok(1529));
    assert_eq!(check_time_at(8, 30, 0), Err(MarketError::WouldBlock));
    assert_eq!(check_time_at(15, 30, 0), Err(MarketError::WouldBlock));
    assert_eq!(check_time_at(10, 0, 5), Err(MarketError::WouldBlock));
}

#[test]
fn gbk_round_trip_and_escapes() {
    assert_eq!(string_to_gb2312(&"abc".to_string()), b"abc".to_vec());
    assert_eq!(string_to_gb2312(&"\u{4e2d}".to_string()), vec![0xd6, 0xd0]);
    assert_eq!(string_to_gb2312(&"a\u{1f600}".to_string()), b"a&#x1f600;".to_vec());
    assert_eq!(gb2312_to_string(&[0xd6, 0xd0]), Some("\u{4e2d}".to_string()));
    assert_eq!(gb2312_to_string(b"abc"), Some("abc".to_string()));
    assert_eq!(gb2312_to_string(&[0x81]), None);
}

#[test]
fn character_references() {
    let mut out = vec![];
    assert!(hex_ncr_escape("A\u{e9}", &mut out));
    assert_eq!(out, b"&#x41;&#xe9;".to_vec());
    let mut out2 = vec![1u8];
    assert!(hex_ncr_escape("", &mut out2));
    assert_eq!(out2, vec![1u8]);
}

#[test]
fn decimal_texts() {
    assert_eq!(decimal_bytes(0), b"0".to_vec());
    assert_eq!(decimal_bytes(-120), b"-120".to_vec());
    assert_eq!(decimal_bytes(i64::MIN), i64::MIN.to_string().into_bytes());
    assert_eq!(decimal_bytes(i64::MAX), i64::MAX.to_string().into_bytes());
}

#[test]
fn number_parsing() {
    assert_eq!(parse_u32("12"), Some(12));
    assert_eq!(parse_u32("+12"), Some(12));
    assert_eq!(parse_u32(""), None);
    assert_eq!(parse_u32("+"), None);
    assert_eq!(parse_u32("-1"), None);
    assert_eq!(parse_u32("4294967295"), Some(u32::MAX));
    assert_eq!(parse_u32("4294967296"), None);
    assert_eq!(parse_u32(" 1"), None);
    assert_eq!(parse_i64("-9223372036854775808"), Some(i64::MIN));
    assert_eq!(parse_i64("9223372036854775808"), None);
    assert_eq!(parse_i64("-0"), Some(0));
    assert_eq!(parse_i64("1234567"), Some(1234567));
    assert_eq!(parse_i64("12a"), None);
    for t in ["", "+", "-", "007", "+7", "-7", "99999999999999999999"] {
        assert_eq!(parse_i64(t), t.parse::<i64>().ok());
        assert_eq!(parse_u32(t), t.parse::<u32>().ok());
    }
}

#[test]
fn save_schedule() {
    let mut s = SaveSchedule::new();
    assert!(!s.due(8, 59));
    assert!(s.due(9, 0));
    assert!(!s.due(9, 10));
    assert!(s.due(9, 15));
    assert!(!s.due(9, 15));
    assert!(!s.due(16, 1));
    assert!(!s.due(9, 0));
    assert_eq!(s._save_time, 540);
    assert!(s.due(9, 15));
}
