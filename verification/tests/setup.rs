use upsync::config::Behaviour;
use upsync::probe::{status, ReachabilityState};
use upsync::setup::{
    get_yes_no_input, next_question, parse_input_behaviour, parse_input_string, parse_input_u32,
    Asked, Command, Overwrite, MAX_ATTEMPTS,
};
use upsync::text::{
    char_is_whitespace, chars_of, first_token_bounds, parse_unsigned, render_decimal, same_text,
    trimmed_bounds,
};

#[test]
fn commands_are_read_by_their_exact_word() {
    assert_eq!(Command::parse("setup"), Command::Setup);
    assert_eq!(Command::parse("server"), Command::Server);
    assert_eq!(Command::parse("client"), Command::Help);
    assert_eq!(Command::parse("default"), Command::Help);
    assert_eq!(Command::parse("Setup"), Command::Help);
    assert_eq!(Command::parse(""), Command::Help);
}

#[test]
fn overwrite_takes_y_or_n_in_either_case() {
    assert_eq!(Overwrite::parse("y"), Overwrite::Yes);
    assert_eq!(Overwrite::parse("Y"), Overwrite::Yes);
    assert_eq!(Overwrite::parse("n"), Overwrite::No);
    assert_eq!(Overwrite::parse("N"), Overwrite::No);
    assert_eq!(Overwrite::parse(""), Overwrite::Invalid);
    assert_eq!(Overwrite::parse("yes"), Overwrite::Invalid);
}

#[test]
fn three_attempts_are_allowed() {
    assert_eq!(MAX_ATTEMPTS, 3);
}

/// Asks one question of the lines given, as the setup does, and says what
/// came of it and how many lines were read.
fn ask<T>(lines: &[&str], read: impl Fn(&str) -> Option<T>) -> (Asked<T>, usize) {
    let mut refused = 0;
    for (i, line) in lines.iter().enumerate() {
        match next_question(refused, read(line)) {
            Asked::Again => refused += 1,
            settled => return (settled, i + 1),
        }
    }
    (Asked::Again, lines.len())
}

#[test]
fn a_refused_line_is_asked_again_twice_and_then_given_up() {
    assert_eq!(next_question(0, Some(7)), Asked::Accepted(7));
    assert_eq!(next_question(2, Some(7)), Asked::Accepted(7));
    assert_eq!(next_question::<u32>(0, None), Asked::Again);
    assert_eq!(next_question::<u32>(1, None), Asked::Again);
    assert_eq!(next_question::<u32>(2, None), Asked::GiveUp);
    assert_eq!(next_question::<u32>(3, None), Asked::GiveUp);
    assert_eq!(next_question::<u32>(u32::MAX, None), Asked::GiveUp);
}

#[test]
fn the_first_line_that_will_do_decides_the_behaviour() {
    assert_eq!(ask(&["2", "3"], parse_input_behaviour), (Asked::Accepted(Behaviour::Hibernate), 1));
    assert_eq!(ask(&["9", "", "4"], parse_input_behaviour), (Asked::Accepted(Behaviour::Sleep), 2));
    assert_eq!(ask(&["9", "x", "4"], parse_input_behaviour), (Asked::Accepted(Behaviour::Ignore), 3));
    assert_eq!(ask(&["9", "x", "0", "4"], parse_input_behaviour), (Asked::GiveUp, 3));
}

#[test]
fn three_empty_lines_end_the_setup() {
    let required = |line: &str| parse_input_string(line, false);
    assert_eq!(ask(&["", "", ""], required), (Asked::GiveUp, 3));
    assert_eq!(ask(&["", "", "", "alice"], required), (Asked::GiveUp, 3));
    assert_eq!(ask(&["", "", "alice"], required), (Asked::Accepted(String::from("alice")), 3));
    assert_eq!(ask(&["", "bob", "alice"], required), (Asked::Accepted(String::from("bob")), 2));
    let optional = |line: &str| parse_input_string(line, true);
    assert_eq!(ask(&["", "alice"], optional), (Asked::Accepted(String::new()), 1));
}

#[test]
fn free_text_must_not_be_empty_unless_allowed() {
    assert_eq!(parse_input_string("alice", false), Some(String::from("alice")));
    assert_eq!(parse_input_string("", false), None);
    assert_eq!(parse_input_string("", true), Some(String::new()));
    assert_eq!(parse_input_string("aa:bb", true), Some(String::from("aa:bb")));
}

#[test]
fn seconds_default_to_thirty_when_left_empty() {
    assert_eq!(parse_input_u32(""), Some(30));
    assert_eq!(parse_input_u32("0"), Some(0));
    assert_eq!(parse_input_u32("12"), Some(12));
    assert_eq!(parse_input_u32("+12"), Some(12));
    assert_eq!(parse_input_u32("0012"), Some(12));
    assert_eq!(parse_input_u32("4294967295"), Some(u32::MAX));
    assert_eq!(parse_input_u32("4294967296"), None);
    assert_eq!(parse_input_u32("99999999999999999999999999"), None);
    assert_eq!(parse_input_u32("-1"), None);
    assert_eq!(parse_input_u32("1 2"), None);
    assert_eq!(parse_input_u32(" 12"), None);
    assert_eq!(parse_input_u32("+"), None);
    assert_eq!(parse_input_u32("++1"), None);
    assert_eq!(parse_input_u32("1_000"), None);
    assert_eq!(parse_input_u32("twelve"), None);
}

#[test]
fn seconds_are_read_as_the_standard_library_reads_them() {
    for text in ["", "0", "7", "+7", "007", "4294967295", "4294967296", "-0", "+", "1e3", "\u{661}\u{662}"] {
        let expected = if text.is_empty() { Some(30) } else { text.parse::<u32>().ok() };
        assert_eq!(parse_input_u32(text), expected);
    }
}

#[test]
fn yes_and_no_are_read_with_blanks_and_case_left_out() {
    assert_eq!(get_yes_no_input("y", false), Some(true));
    assert_eq!(get_yes_no_input("Y", false), Some(true));
    assert_eq!(get_yes_no_input("n", true), Some(false));
    assert_eq!(get_yes_no_input("N", true), Some(false));
    assert_eq!(get_yes_no_input("  y \n", false), Some(true));
    assert_eq!(get_yes_no_input("", true), Some(true));
    assert_eq!(get_yes_no_input("", false), Some(false));
    assert_eq!(get_yes_no_input(" \t ", true), Some(true));
    assert_eq!(get_yes_no_input("yes", true), None);
    assert_eq!(get_yes_no_input("no", false), None);
    assert_eq!(get_yes_no_input("y n", false), None);
    assert_eq!(get_yes_no_input("1", false), None);
}

#[test]
fn behaviour_is_chosen_by_number() {
    assert_eq!(parse_input_behaviour(""), Some(Behaviour::Sleep));
    assert_eq!(parse_input_behaviour("1"), Some(Behaviour::Sleep));
    assert_eq!(parse_input_behaviour("2"), Some(Behaviour::Hibernate));
    assert_eq!(parse_input_behaviour("3"), Some(Behaviour::Shutdown));
    assert_eq!(parse_input_behaviour("4"), Some(Behaviour::Ignore));
    assert_eq!(parse_input_behaviour("+3"), Some(Behaviour::Shutdown));
    assert_eq!(parse_input_behaviour("03"), Some(Behaviour::Shutdown));
    assert_eq!(parse_input_behaviour("0"), None);
    assert_eq!(parse_input_behaviour("5"), None);
    assert_eq!(parse_input_behaviour("255"), None);
    assert_eq!(parse_input_behaviour("256"), None);
    assert_eq!(parse_input_behaviour("257"), None);
    assert_eq!(parse_input_behaviour("sleep"), None);
}

#[test]
fn a_probe_that_failed_counts_as_offline() {
    assert_eq!(status(Ok(true)), ReachabilityState::Online);
    assert_eq!(status(Ok(false)), ReachabilityState::Offline);
    assert_eq!(status(Err(String::from("timed out"))), ReachabilityState::Offline);
}

#[test]
fn numbers_are_written_without_leading_zeros() {
    assert_eq!(render_decimal(0), "0");
    assert_eq!(render_decimal(9), "9");
    assert_eq!(render_decimal(10), "10");
    assert_eq!(render_decimal(1234567890), "1234567890");
    assert_eq!(render_decimal(u64::MAX), "18446744073709551615");
}

#[test]
fn written_numbers_read_back() {
    for n in [0u64, 1, 9, 10, 99, 100, 65535, 4294967295, u64::MAX] {
        assert_eq!(parse_unsigned(&render_decimal(n), u64::MAX), Some(n));
        assert_eq!(render_decimal(n), n.to_string());
    }
}

#[test]
fn unsigned_numbers_respect_their_limit() {
    assert_eq!(parse_unsigned("65535", 65535), Some(65535));
    assert_eq!(parse_unsigned("65536", 65535), None);
    assert_eq!(parse_unsigned("18446744073709551615", u64::MAX), Some(u64::MAX));
    assert_eq!(parse_unsigned("18446744073709551616", u64::MAX), None);
    assert_eq!(parse_unsigned("0", 0), Some(0));
    assert_eq!(parse_unsigned("1", 0), None);
    assert_eq!(parse_unsigned("", 10), None);
}

#[test]
fn white_space_is_what_the_standard_library_calls_white_space() {
    for n in 0..0x3100u32 {
        if let Some(c) = char::from_u32(n) {
            assert_eq!(char_is_whitespace(c), c.is_whitespace());
        }
    }
}

#[test]
fn first_token_and_trimmed_bounds_are_found() {
    let text = chars_of("  suspend now ");
    assert_eq!(text.len(), 14);
    assert_eq!(first_token_bounds(&text), (2, 9));
    assert_eq!(trimmed_bounds(&text), (2, 13));
    let blank = chars_of(" \t\n");
    assert_eq!(first_token_bounds(&blank), (3, 3));
    assert_eq!(trimmed_bounds(&blank), (3, 3));
    assert_eq!(first_token_bounds(&chars_of("")), (0, 0));
    assert_eq!(first_token_bounds(&chars_of("word")), (0, 4));
}

#[test]
fn texts_are_compared_by_their_characters() {
    assert!(same_text("abc", "abc"));
    assert!(!same_text("abc", "abd"));
    assert!(!same_text("abc", "ab"));
    assert_eq!(chars_of("a\u{e9}"), vec!['a', '\u{e9}']);
}
