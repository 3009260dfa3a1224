use rcon_moderation::text::{decimal_string, parse_i32, split_lines, take_before};

#[test]
fn decimal_of_small_and_large_numbers() {
    assert_eq!(decimal_string(0), "0");
    assert_eq!(decimal_string(7), "7");
    assert_eq!(decimal_string(10), "10");
    assert_eq!(decimal_string(27015), "27015");
    assert_eq!(decimal_string(-1), "-1");
    assert_eq!(decimal_string(-2147483648), "-2147483648");
    assert_eq!(decimal_string(i64::MAX), "9223372036854775807");
    assert_eq!(decimal_string(i64::MIN), "-9223372036854775808");
}

#[test]
fn parse_reads_what_the_standard_parser_reads() {
    let cases = [
        "0", "7", "007", "+5", "-5", "-0", "2147483647", "2147483648", "-2147483648",
        "-2147483649", "", "+", "-", "12a", "a12", " 12", "12 ", "1-2", "--1", "99999999999999999999",
        "\u{0663}",
    ];
    for case in cases {
        assert_eq!(parse_i32(case), case.parse::<i32>().ok(), "{:?}", case);
    }
}

#[test]
fn parse_gives_exact_values() {
    assert_eq!(parse_i32("34"), Some(34));
    assert_eq!(parse_i32("-2147483648"), Some(i32::MIN));
    assert_eq!(parse_i32("2147483647"), Some(i32::MAX));
    assert_eq!(parse_i32("2147483648"), None);
    assert_eq!(parse_i32("x"), None);
}

#[test]
fn lines_split_as_the_standard_iterator_does() {
    let cases = [
        "", "a", "a\n", "a\nb", "a\r\nb\r\n", "\n", "\n\n", "a\r", "a\r\n", "\r\n", "a\n\rb",
        "a\r\r\nb", "x\ny\n\nz", "\u{00e9}\n\u{4e2d}\u{6587}\r\n",
    ];
    for case in cases {
        let expected: Vec<&str> = case.lines().collect();
        assert_eq!(split_lines(case), expected, "{:?}", case);
    }
}

#[test]
fn lines_drop_the_terminators() {
    assert_eq!(split_lines("one\r\ntwo\nthree"), vec!["one", "two", "three"]);
    assert_eq!(split_lines("one\n"), vec!["one"]);
    assert_eq!(split_lines(""), Vec::<&str>::new());
}

#[test]
fn the_part_before_a_separator() {
    assert_eq!(take_before("10.1.2.3:27005", ':'), "10.1.2.3");
    assert_eq!(take_before("10.1.2.3", ':'), "10.1.2.3");
    assert_eq!(take_before(":27005", ':'), "");
    assert_eq!(take_before("", ':'), "");
    assert_eq!(take_before("a:b:c", ':'), "a");
}

#[test]
fn what_is_written_reads_back() {
    for n in [0, 1, -1, 9, 10, -10, 99, 100, 27015, i32::MAX, i32::MIN, i32::MIN + 1] {
        assert_eq!(parse_i32(&decimal_string(i64::from(n))), Some(n));
    }
}
