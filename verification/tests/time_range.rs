use es_base_tools::error::ToolError;
use es_base_tools::time_range::parse_time_range;

const MESSAGE: &str = "Invalid time range format. Use 'start,end' or 'now-X' format";

fn accepted(input: &str) -> (String, String) {
    match parse_time_range(input) {
        Ok(pair) => pair,
        Err(e) => panic!("{:?} was rejected: {}", input, e.message()),
    }
}

fn rejected(input: &str) {
    match parse_time_range(input) {
        Err(ToolError::InvalidParameter(message)) => assert_eq!(message, MESSAGE),
        other => panic!("{:?} gave {:?}", input, other),
    }
}

fn pair(start: &str, end: &str) -> (String, String) {
    (start.to_string(), end.to_string())
}

#[test]
fn relative_range_ends_now() {
    assert_eq!(accepted("now-1h"), pair("now-1h", "now"));
    assert_eq!(accepted("now-15m"), pair("now-15m", "now"));
    assert_eq!(accepted("now-7d/d"), pair("now-7d/d", "now"));
}

#[test]
fn relative_range_is_passed_on_unexamined() {
    assert_eq!(accepted("now-"), pair("now-", "now"));
    assert_eq!(accepted("now-  what ever "), pair("now-  what ever ", "now"));
}

#[test]
fn absolute_range_is_split() {
    assert_eq!(
        accepted("2024-01-01T00:00:00Z,2024-01-01T23:59:59Z"),
        pair("2024-01-01T00:00:00Z", "2024-01-01T23:59:59Z")
    );
    assert_eq!(accepted("a,b"), pair("a", "b"));
}

#[test]
fn absolute_range_is_trimmed() {
    assert_eq!(
        accepted("  2024-01-01T00:00:00Z ,\t2024-01-01T23:59:59Z\n"),
        pair("2024-01-01T00:00:00Z", "2024-01-01T23:59:59Z")
    );
    assert_eq!(accepted("a b , c d"), pair("a b", "c d"));
    assert_eq!(accepted("\u{2003}x\u{a0},\u{3000}y\u{85}"), pair("x", "y"));
}

#[test]
fn absolute_range_wins_over_relative_prefix() {
    assert_eq!(accepted("now-2h,now-1h"), pair("now-2h", "now-1h"));
}

#[test]
fn absolute_range_keeps_characters_outside_ascii() {
    assert_eq!(accepted(" d\u{e9}but , f\u{ee}n "), pair("d\u{e9}but", "f\u{ee}n"));
}

#[test]
fn three_parts_are_rejected() {
    rejected("a,b,c");
    rejected(",,");
    rejected("2024-01-01,2024-01-02,");
}

#[test]
fn empty_halves_are_rejected() {
    rejected("a,");
    rejected(",b");
    rejected(",");
    rejected("a,   ");
    rejected(" \t ,b");
}

#[test]
fn unrecognized_text_means_the_last_hour() {
    for input in ["", "yesterday", "1h", "now", "now+1h", "NOW-1h", " now-1h", "last week"] {
        assert_eq!(accepted(input), pair("now-1h", "now"), "input {:?}", input);
    }
}

#[test]
fn start_may_follow_end() {
    assert_eq!(accepted("2025-01-01,2024-01-01"), pair("2025-01-01", "2024-01-01"));
}
