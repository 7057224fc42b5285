use livescore::text::{
    chars_of, contains, find_char, parse_bounded, parse_u32, parse_u64, split_at_first,
    starts_with,
};

fn seq(s: &str) -> Vec<char> {
    s.chars().collect()
}

#[test]
fn characters_of_a_string() {
    assert_eq!(chars_of(""), Vec::<char>::new());
    assert_eq!(chars_of("a'1"), vec!['a', '\'', '1']);
    assert_eq!(chars_of("é\u{1F600}z"), vec!['é', '\u{1F600}', 'z']);
}

#[test]
fn numbers_are_read() {
    assert_eq!(parse_u64(&seq("0")), Some(0));
    assert_eq!(parse_u64(&seq("7")), Some(7));
    assert_eq!(parse_u64(&seq("007")), Some(7));
    assert_eq!(parse_u64(&seq("+42")), Some(42));
    assert_eq!(parse_u64(&seq("1234567890")), Some(1234567890));
    assert_eq!(parse_u64(&seq("18446744073709551615")), Some(u64::MAX));
    assert_eq!(parse_u64(&seq("000000000000000000000000018446744073709551615")), Some(u64::MAX));
    assert_eq!(parse_u32(&seq("4294967295")), Some(u32::MAX));
    assert_eq!(parse_u32(&seq("09")), Some(9));
}

#[test]
fn what_is_no_number() {
    for text in ["", "+", "-", "-1", "++1", "+-1", "1+", " 1", "1 ", "1_000", "0x10", "1.0", "१", "a", "12a"] {
        assert_eq!(parse_u64(&seq(text)), None);
        assert_eq!(parse_u32(&seq(text)), None);
        assert_eq!(text.parse::<u64>().ok(), None);
    }
}

#[test]
fn numbers_beyond_the_bound() {
    assert_eq!(parse_u64(&seq("18446744073709551616")), None);
    assert_eq!(parse_u64(&seq("99999999999999999999999")), None);
    assert_eq!(parse_u32(&seq("4294967296")), None);
    assert_eq!(parse_bounded(&seq("10"), 9), None);
    assert_eq!(parse_bounded(&seq("9"), 9), Some(9));
    assert_eq!(parse_bounded(&seq("0"), 0), Some(0));
    assert_eq!(parse_bounded(&seq("1"), 0), None);
    assert_eq!(parse_bounded(&seq("5"), 3), None);
    assert_eq!(parse_bounded(&seq("19"), 20), Some(19));
    assert_eq!(parse_bounded(&seq("21"), 20), None);
    assert_eq!(parse_bounded(&seq("20x"), 5), None);
}

#[test]
fn numbers_as_the_standard_library_reads_them() {
    for text in ["0", "1", "+1", "00", "+0", "255", "65536", "4294967295", "4294967296",
        "18446744073709551615", "18446744073709551616", "+18446744073709551615"]
    {
        assert_eq!(parse_u64(&seq(text)), text.parse::<u64>().ok());
        assert_eq!(parse_u32(&seq(text)), text.parse::<u32>().ok());
    }
}

#[test]
fn first_place_of_a_character() {
    assert_eq!(find_char(&seq(""), ':'), None);
    assert_eq!(find_char(&seq("18:00"), ':'), Some(2));
    assert_eq!(find_char(&seq("18:00:30"), ':'), Some(2));
    assert_eq!(find_char(&seq(":"), ':'), Some(0));
    assert_eq!(find_char(&seq("1800"), ':'), None);
    assert_eq!(find_char(&seq("1800:"), ':'), Some(4));
}

#[test]
fn split_at_the_first_character() {
    let text = seq("07.09. 18:00");
    let (head, tail) = split_at_first(&text, ' ').unwrap();
    assert_eq!(head, &seq("07.09.")[..]);
    assert_eq!(tail, &seq("18:00")[..]);
    let (head, tail) = split_at_first(&text, '.').unwrap();
    assert_eq!(head, &seq("07")[..]);
    assert_eq!(tail, &seq("09. 18:00")[..]);
    assert_eq!(split_at_first(&text, 'x'), None);
    let only = seq(":");
    let (head, tail) = split_at_first(&only, ':').unwrap();
    assert!(head.is_empty());
    assert!(tail.is_empty());
}

#[test]
fn beginning_of_a_text() {
    assert!(starts_with(&seq("Alpha FC"), &seq("Alpha")));
    assert!(starts_with(&seq("Alpha"), &seq("Alpha")));
    assert!(starts_with(&seq("Alpha"), &seq("")));
    assert!(starts_with(&seq(""), &seq("")));
    assert!(!starts_with(&seq("Alpha"), &seq("Alpha FC")));
    assert!(!starts_with(&seq("Alpha"), &seq("alpha")));
    assert!(!starts_with(&seq("Beta"), &seq("Alpha")));
    assert!(!starts_with(&seq(""), &seq("A")));
}

#[test]
fn run_of_characters_in_a_text() {
    assert!(contains(&seq("event__match--live"), &seq("event__match--live")));
    assert!(contains(&seq("a event__match--live b"), &seq("event__match--live")));
    assert!(contains(&seq("abc"), &seq("")));
    assert!(contains(&seq(""), &seq("")));
    assert!(contains(&seq("aab"), &seq("ab")));
    assert!(contains(&seq("abab"), &seq("bab")));
    assert!(!contains(&seq("ab"), &seq("abc")));
    assert!(!contains(&seq("abcab"), &seq("abd")));
    assert!(!contains(&seq(""), &seq("a")));
    assert!(!contains(&seq("event__match--liv e"), &seq("event__match--live")));
}
