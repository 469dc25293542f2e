use twitch_discord_bot::envelope::json_bool_field;
use twitch_discord_bot::envelope::json_str_field;
use twitch_discord_bot::envelope::json_u64_field;
use twitch_discord_bot::text::find_from;
use twitch_discord_bot::text::contains_pat;
use twitch_discord_bot::text::parse_u64_at;
use twitch_discord_bot::text::str_eq;
use twitch_discord_bot::text::trim_owned;
use twitch_discord_bot::text::u64_to_string;

#[test]
fn find_first_occurrence() {
    assert_eq!(find_from("abcabc", "bc", 0), Some(1));
    assert_eq!(find_from("abcabc", "bc", 2), Some(4));
    assert_eq!(find_from("abcabc", "zz", 0), None);
    assert_eq!(find_from("abc", "", 1), Some(1));
    assert!(contains_pat("hello world", "o w"));
    assert!(!contains_pat("hello world", "ow"));
}

#[test]
fn string_equality_by_characters() {
    assert!(str_eq("abc", "abc"));
    assert!(!str_eq("abc", "abd"));
    assert!(!str_eq("abc", "abcd"));
    assert!(str_eq("", ""));
}

#[test]
fn trim_strips_surrounding_whitespace() {
    assert_eq!(trim_owned("  !hello \r\n"), "!hello");
    assert_eq!(trim_owned("x"), "x");
    assert_eq!(trim_owned(" \t\r\n"), "");
    assert_eq!(trim_owned("a b"), "a b");
}

#[test]
fn decimal_rendering_is_exact() {
    assert_eq!(u64_to_string(0), "0");
    assert_eq!(u64_to_string(7), "7");
    assert_eq!(u64_to_string(44500), "44500");
    assert_eq!(u64_to_string(18446744073709551615), "18446744073709551615");
}

#[test]
fn digit_runs_parse_exactly() {
    assert_eq!(parse_u64_at("abc123x", 3), Some(123));
    assert_eq!(parse_u64_at("abc123x", 0), None);
    assert_eq!(parse_u64_at("42", 0), Some(42));
    // Too large for a u64: dropped, not wrapped.
    assert_eq!(parse_u64_at("99999999999999999999", 0), None);
}

#[test]
fn json_fields_read_the_first_occurrence() {
    let t = r#"{"type":"MESSAGE","data":{"topic":"following.123","message":"{}"}}"#;
    assert_eq!(json_str_field(t, "topic").as_deref(), Some("following.123"));
    assert_eq!(json_str_field(t, "nope"), None);
    let g = r#"{"op":0,"s":42,"t":"GUILD_CREATE"}"#;
    assert_eq!(json_u64_field(g, "s"), Some(42));
    assert_eq!(json_u64_field(g, "missing"), None);
    let b = r#"{"op":9,"d":true}"#;
    assert_eq!(json_bool_field(b, "d"), Some(true));
    assert_eq!(json_bool_field(r#"{"op":9,"d":false}"#, "d"), Some(false));
    assert_eq!(json_bool_field(r#"{"op":9,"d":null}"#, "d"), None);
}
