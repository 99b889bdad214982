use game_mode::session::{
    active_terminal_is, foreign_user_in_listing, greeter_in_listing, parse_sessions, terminal_name, QueryError,
};
use game_mode::text::{decimal_text, parse_number, trim_blanks};

const LISTING: &[u8] = br#"[
    {"session":"1","uid":967,"user":"greeter","seat":"seat0","tty":"tty1"},
    {"session":"4","uid":1000,"user":"alice","seat":"seat0","tty":"tty2"}
]"#;

fn s(t: &str) -> String {
    t.to_string()
}

#[test]
fn listing_is_read_into_records() {
    let sessions = parse_sessions(LISTING).unwrap();
    assert_eq!(sessions.len(), 2);
    assert_eq!(sessions[1].user, Some(s("alice")));
    assert_eq!(sessions[1].tty, Some(s("tty2")));
    let sessions = parse_sessions(br#"[{"user":"bob","tty":null}, 3]"#).unwrap();
    assert_eq!(sessions[0].tty, None);
    assert_eq!(sessions[1].user, None);
}

#[test]
fn malformed_listing_is_an_error() {
    assert_eq!(foreign_user_in_listing(b"not json", &s("tty1"), &s("greeter")), Err(QueryError::MalformedListing));
    assert_eq!(greeter_in_listing(br#"{"user":"greeter"}"#, &s("greeter")), Err(QueryError::MalformedListing));
    assert!(parse_sessions(b"").is_err());
}

#[test]
fn foreign_user_is_seen_only_on_its_terminal() {
    assert_eq!(foreign_user_in_listing(LISTING, &s("tty1"), &s("greeter")), Ok(false));
    assert_eq!(foreign_user_in_listing(LISTING, &s("tty2"), &s("greeter")), Ok(true));
    let listing = br#"[{"user":"alice","tty":"tty1"}]"#;
    assert_eq!(foreign_user_in_listing(listing, &s("tty1"), &s("greeter")), Ok(true));
    assert_eq!(foreign_user_in_listing(b"[]", &s("tty1"), &s("greeter")), Ok(false));
}

#[test]
fn greeter_counts_only_on_a_real_terminal() {
    assert_eq!(greeter_in_listing(LISTING, &s("greeter")), Ok(true));
    assert_eq!(greeter_in_listing(br#"[{"user":"greeter","tty":"-"}]"#, &s("greeter")), Ok(false));
    assert_eq!(greeter_in_listing(br#"[{"user":"greeter","tty":""}]"#, &s("greeter")), Ok(false));
    assert_eq!(greeter_in_listing(br#"[{"user":"greeter"}]"#, &s("greeter")), Ok(false));
    assert_eq!(greeter_in_listing(br#"[{"user":"alice","tty":"tty1"}]"#, &s("greeter")), Ok(false));
}

#[test]
fn terminal_names_and_console_output() {
    assert_eq!(terminal_name(1), "tty1");
    assert_eq!(terminal_name(12), "tty12");
    assert!(active_terminal_is("1\n", 1));
    assert!(active_terminal_is("  7 ", 7));
    assert!(!active_terminal_is("2\n", 1));
    assert!(!active_terminal_is("01", 1));
    assert!(!active_terminal_is("", 1));
    assert!(active_terminal_is("1\u{b}", 1));
    assert!(active_terminal_is("\u{3000}3\u{a0}", 3));
}

#[test]
fn numbers_are_read_with_blanks_around_them() {
    assert_eq!(parse_number(" 42\n"), Some(42));
    assert_eq!(parse_number("4294967295"), Some(4294967295));
    assert_eq!(parse_number("4294967296"), None);
    assert_eq!(parse_number(""), None);
    assert_eq!(parse_number("12a"), None);
    assert_eq!(parse_number("1 2"), None);
    assert_eq!(trim_blanks("\t a b \r\n"), "a b");
}

#[test]
fn numbers_are_written_in_decimal() {
    assert_eq!(decimal_text(0), "0");
    assert_eq!(decimal_text(9), "9");
    assert_eq!(decimal_text(10), "10");
    assert_eq!(decimal_text(4294967295), "4294967295");
    assert_eq!(parse_number(&decimal_text(123456)), Some(123456));
}
