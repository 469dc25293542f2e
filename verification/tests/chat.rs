use twitch_discord_bot::send_msg::send_msg;
use twitch_discord_bot::twitch::chat_bot::command_parser::cmd_response;
use twitch_discord_bot::twitch::chat_bot::msg_parser::parse_twitch_msg;
use twitch_discord_bot::twitch::setup_twitch_chat_ws;
use twitch_discord_bot::twitch_chat_connect::twitch_chat_connect_messages;

#[test]
fn chat_line_parses_to_name_channel_message() {
    let line = "@display-name=Alice :alice!alice@alice.tmi.twitch.tv PRIVMSG #bob :hello";
    let msg = parse_twitch_msg(line.to_string()).unwrap();
    assert_eq!(msg.display_name, "Alice");
    assert_eq!(msg.channel_name, "#bob");
    assert_eq!(msg.message, "hello");
}

#[test]
fn chat_line_without_tags_still_parses() {
    let line = ":alice!alice@alice.tmi.twitch.tv PRIVMSG #bob :hello there";
    let msg = parse_twitch_msg(line.to_string()).unwrap();
    assert_eq!(msg.display_name, "");
    assert_eq!(msg.channel_name, "#bob");
    assert_eq!(msg.message, "hello there");
}

#[test]
fn non_privmsg_lines_yield_nothing() {
    assert!(parse_twitch_msg("PING :tmi.twitch.tv".to_string()).is_none());
    assert!(parse_twitch_msg(":tmi.twitch.tv 001 nick :Welcome".to_string()).is_none());
}

#[test]
fn command_table_is_matched_exactly_after_trim() {
    let commands = vec![
        ("!hello".to_string(), "Hi there".to_string()),
        ("!bye".to_string(), "See you".to_string()),
    ];
    let line = "@display-name=Alice :a!a@a.tmi.twitch.tv PRIVMSG #bob :!hello\r\n";
    let msg = parse_twitch_msg(line.to_string()).unwrap();
    let replies = cmd_response(&msg, &commands);
    assert_eq!(replies, vec!["PRIVMSG #bob :Hi there".to_string()]);

    let line2 = "@display-name=Alice :a!a@a.tmi.twitch.tv PRIVMSG #bob :!hello world";
    let msg2 = parse_twitch_msg(line2.to_string()).unwrap();
    assert!(cmd_response(&msg2, &commands).is_empty());
}

#[test]
fn outbound_chat_line_shape() {
    let line = send_msg(&"#bob".to_string(), "hi".to_string());
    assert_eq!(line, "PRIVMSG #bob :hi");
}

#[test]
fn handshake_lines_in_order() {
    let lines = twitch_chat_connect_messages(&"oauth:abc".to_string());
    assert_eq!(
        lines,
        vec![
            "CAP REQ :twitch.tv/tags twitch.tv/commands twitch.tv/membership".to_string(),
            "PASS oauth:abc".to_string(),
            "NICK idontmatterlol".to_string(),
            "JOIN #neonraytracer".to_string(),
        ]
    );
}

#[test]
fn inbound_ping_is_answered_at_once() {
    let bot = setup_twitch_chat_ws("oauth:abc".to_string());
    let commands: Vec<(String, String)> = Vec::new();
    let replies = bot.read_message("PING :tmi.twitch.tv", &commands);
    assert_eq!(replies, vec!["PONG :tmi.twitch.tv".to_string()]);
    assert!(bot.read_message(":tmi.twitch.tv 001 n :hi", &commands).is_empty());
}

#[test]
fn chat_session_reconnect_pacing() {
    let mut bot = setup_twitch_chat_ws("oauth:abc".to_string());
    assert_eq!(bot.backoff.current_delay_ms, 2000);
    // Immediately due while nothing failed yet.
    assert!(bot.reconnect(0));
    bot.on_connect_failure(0);
    assert_eq!(bot.backoff.current_delay_ms, 4000);
    // Not due again until the delay has elapsed: a no-op meanwhile.
    assert!(!bot.reconnect(3999));
    assert_eq!(bot.backoff.current_delay_ms, 4000);
    assert_eq!(bot.backoff.last_attempt_ms, Some(0));
    assert!(bot.reconnect(4000));
    // A successful handshake resets the pacing.
    let lines = bot.send_listen_msg();
    assert_eq!(lines.len(), 4);
    assert_eq!(bot.backoff.current_delay_ms, 2000);
    assert_eq!(bot.backoff.last_attempt_ms, None);
}
