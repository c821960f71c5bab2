use kpi_tool::text::{
    chars_of, contains, count_leading, ends_with, find_char, first_some, int_to_text, joined,
    magnitude_of, pad_int, parse_i32, parse_u32, parse_u32_between, same_text, text_le, text_lt,
};

#[test]
fn chars_of_keeps_every_character() {
    assert_eq!(chars_of(""), Vec::<char>::new());
    assert_eq!(chars_of("a-b"), vec!['a', '-', 'b']);
    assert_eq!(chars_of("é1"), vec!['é', '1']);
}

#[test]
fn same_text_compares_characters() {
    assert!(same_text("", ""));
    assert!(same_text("dev-1", "dev-1"));
    assert!(!same_text("dev-1", "dev-2"));
    assert!(!same_text("dev-1", "dev-10"));
    assert!(!same_text("Dev", "dev"));
}

#[test]
fn joined_puts_one_text_after_another() {
    assert_eq!(joined("", ""), "");
    assert_eq!(joined("Invalid: ", "x"), "Invalid: x");
    assert_eq!(joined("a", ""), "a");
}

#[test]
fn text_order_is_dictionary_order() {
    assert!(text_lt("2024-01-31", "2024-02-01"));
    assert!(!text_lt("2024-02-01", "2024-01-31"));
    assert!(!text_lt("2024-02-01", "2024-02-01"));
    assert!(text_le("2024-02-01", "2024-02-01"));
    assert!(text_lt("2024-02", "2024-02-01"));
    assert!(!text_lt("2024-02-01", "2024-02"));
    assert!(text_lt("", "a"));
    assert!(!text_lt("a", ""));
    assert!(!text_lt("", ""));
    assert!(text_le("", ""));
    assert!(text_lt("10", "9"));
}

#[test]
fn text_order_agrees_with_std_on_samples() {
    let samples = ["", "a", "ab", "b", "2024-01-01", "2024-01-02", "2023-12-31", "é", "z", "Z", "~"];
    for a in samples {
        for b in samples {
            assert_eq!(text_lt(a, b), a < b, "{:?} < {:?}", a, b);
            assert_eq!(text_le(a, b), a <= b, "{:?} <= {:?}", a, b);
            assert_eq!(same_text(a, b), a == b);
        }
    }
}

#[test]
fn integers_are_written_in_decimal() {
    assert_eq!(int_to_text(0), "0");
    assert_eq!(int_to_text(7), "7");
    assert_eq!(int_to_text(10), "10");
    assert_eq!(int_to_text(2024), "2024");
    assert_eq!(int_to_text(-5), "-5");
    assert_eq!(int_to_text(i64::MAX), i64::MAX.to_string());
    assert_eq!(int_to_text(i64::MIN), i64::MIN.to_string());
}

#[test]
fn magnitude_of_extremes() {
    assert_eq!(magnitude_of(0), 0);
    assert_eq!(magnitude_of(-1), 1);
    assert_eq!(magnitude_of(i64::MIN), 1u64 << 63);
    assert_eq!(magnitude_of(i64::MAX), i64::MAX as u64);
}

#[test]
fn padding_fills_with_zeros_after_the_sign() {
    assert_eq!(pad_int(3, 2), "03");
    assert_eq!(pad_int(12, 2), "12");
    assert_eq!(pad_int(123, 2), "123");
    assert_eq!(pad_int(0, 4), "0000");
    assert_eq!(pad_int(2024, 4), "2024");
    assert_eq!(pad_int(-5, 4), "-005");
    assert_eq!(pad_int(-5, 2), "-5");
    assert_eq!(pad_int(7, 0), "7");
    assert_eq!(pad_int(12345, 4), "12345");
}

#[test]
fn padding_agrees_with_std_formatting() {
    for n in [-12345i64, -100, -10, -9, -1, 0, 1, 9, 10, 99, 100, 999, 1000, 9999, 10000] {
        assert_eq!(pad_int(n, 4), format!("{:04}", n));
        assert_eq!(pad_int(n, 2), format!("{:02}", n));
    }
}

#[test]
fn parse_i32_reads_signed_numbers() {
    assert_eq!(parse_i32("0"), Some(0));
    assert_eq!(parse_i32("03"), Some(3));
    assert_eq!(parse_i32("2024"), Some(2024));
    assert_eq!(parse_i32("+7"), Some(7));
    assert_eq!(parse_i32("-7"), Some(-7));
    assert_eq!(parse_i32("-0"), Some(0));
    assert_eq!(parse_i32("2147483647"), Some(i32::MAX));
    assert_eq!(parse_i32("-2147483648"), Some(i32::MIN));
}

#[test]
fn parse_i32_refuses_what_is_no_number() {
    for text in ["", "+", "-", "2147483648", "-2147483649", " 1", "1 ", "1a", "a", "--1", "+-1", "1.0", "１"] {
        assert_eq!(parse_i32(text), None, "{:?}", text);
    }
}

#[test]
fn parse_i32_agrees_with_std() {
    let samples = [
        "", "0", "00", "-", "+", "+0", "-0", "12", "-12", "+12", "007", "99999999999", "2147483647",
        "2147483648", "-2147483648", "-2147483649", "1e3", "0x10", " 5", "5 ", "٣", "4294967295",
        "4294967296", "+4294967295", "000000000000000000000000001",
    ];
    for text in samples {
        assert_eq!(parse_i32(text), text.parse::<i32>().ok(), "{:?}", text);
        assert_eq!(parse_u32(text), text.parse::<u32>().ok(), "{:?}", text);
    }
}

#[test]
fn parse_u32_reads_unsigned_numbers() {
    assert_eq!(parse_u32("0"), Some(0));
    assert_eq!(parse_u32("+15"), Some(15));
    assert_eq!(parse_u32("4294967295"), Some(u32::MAX));
    assert_eq!(parse_u32("4294967296"), None);
    assert_eq!(parse_u32("-1"), None);
    assert_eq!(parse_u32("-0"), None);
    assert_eq!(parse_u32(""), None);
}

#[test]
fn parse_u32_between_reads_a_part() {
    let text = chars_of("v1.22.333");
    assert_eq!(parse_u32_between(&text, 1, 2), Some(1));
    assert_eq!(parse_u32_between(&text, 3, 5), Some(22));
    assert_eq!(parse_u32_between(&text, 6, 9), Some(333));
    assert_eq!(parse_u32_between(&text, 0, 2), None);
    assert_eq!(parse_u32_between(&text, 2, 2), None);
    assert_eq!(parse_u32_between(&text, 1, 5), None);
}

#[test]
fn find_char_gives_the_first_place() {
    let text = chars_of("1.2.3-beta");
    assert_eq!(find_char(&text, 0, text.len(), '.'), 1);
    assert_eq!(find_char(&text, 2, text.len(), '.'), 3);
    assert_eq!(find_char(&text, 4, text.len(), '.'), text.len());
    assert_eq!(find_char(&text, 4, text.len(), '-'), 5);
    assert_eq!(find_char(&text, 0, 1, '.'), 1);
    assert_eq!(find_char(&text, 3, 3, '.'), 3);
}

#[test]
fn count_leading_counts_the_run_at_the_start() {
    assert_eq!(count_leading(&chars_of("v1.0.0"), 'v'), 1);
    assert_eq!(count_leading(&chars_of("vvv1"), 'v'), 3);
    assert_eq!(count_leading(&chars_of("1v"), 'v'), 0);
    assert_eq!(count_leading(&chars_of(""), 'v'), 0);
    assert_eq!(count_leading(&chars_of("vv"), 'v'), 2);
}

#[test]
fn ends_with_agrees_with_std() {
    let names = ["app.dmg", "app.tar.gz", "app.app.tar.gz", "dmg", "", ".dmg", "app.dmg.sig"];
    let endings = [".dmg", ".tar.gz", ".app.tar.gz", "", "g"];
    for name in names {
        for ending in endings {
            assert_eq!(ends_with(name, ending), name.ends_with(ending), "{:?} {:?}", name, ending);
        }
    }
}

#[test]
fn contains_agrees_with_std() {
    let texts = ["UNIQUE constraint failed: developers.email", "", "abc", "aab", "file is not a database"];
    let parts = ["UNIQUE constraint", "", "ab", "abc", "abcd", "c", "not a database", "b"];
    for text in texts {
        for part in parts {
            assert_eq!(contains(text, part), text.contains(part), "{:?} {:?}", text, part);
        }
    }
}

#[test]
fn first_some_prefers_the_first() {
    assert_eq!(first_some(Some(1), Some(2)), Some(1));
    assert_eq!(first_some(None, Some(2)), Some(2));
    assert_eq!(first_some(Some(1), None), Some(1));
    assert_eq!(first_some::<i32>(None, None), None);
}
