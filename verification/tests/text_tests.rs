use cli_tetris::hiscore::{better_score, high_score_text, parse_high_score};
use cli_tetris::text::{
    clock, decimal, eq_ignore_ascii_case, find_char, parse_u64, str_eq, trim, two_digits,
};

#[test]
fn decimal_numbers() {
    assert_eq!(decimal(0), "0");
    assert_eq!(decimal(7), "7");
    assert_eq!(decimal(1234567890), "1234567890");
    assert_eq!(decimal(u64::MAX), u64::MAX.to_string());
    assert_eq!(two_digits(3), "03");
    assert_eq!(two_digits(42), "42");
    assert_eq!(two_digits(123), "123");
    assert_eq!(clock(125_999), "02:05");
}

#[test]
fn parses_like_std() {
    for t in ["0", "42", "+42", "", "+", "-1", "4 2", "18446744073709551615", "18446744073709551616", "007", "x"] {
        assert_eq!(parse_u64(t), t.parse::<u64>().ok(), "input {:?}", t);
    }
}

#[test]
fn trims_like_std() {
    for t in ["", "  ", " a ", "\t\nab c\r\n", "\u{3000}x\u{a0}", "x"] {
        assert_eq!(trim(t), t.trim());
    }
}

#[test]
fn compares_text() {
    assert!(eq_ignore_ascii_case("HeLLo", "hello"));
    assert!(!eq_ignore_ascii_case("hello", "help!"));
    assert!(!eq_ignore_ascii_case("ab", "abc"));
    assert!(str_eq("das", "das"));
    assert!(!str_eq("das", "Das"));
    assert_eq!(find_char("key=value=x", '='), 3);
    assert_eq!(find_char("novalue", '='), 7);
}

#[test]
fn high_score_file() {
    assert_eq!(parse_high_score(" 1500\n"), 1500);
    assert_eq!(parse_high_score("garbage"), 0);
    assert_eq!(parse_high_score(""), 0);
    assert_eq!(parse_high_score(&high_score_text(987654)), 987654);
    assert_eq!(better_score(10, 5), (10, true));
    assert_eq!(better_score(5, 10), (10, false));
    assert_eq!(better_score(5, 5), (5, false));
}
