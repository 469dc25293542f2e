use twitch_discord_bot::discord::create_discord_bot;
use twitch_discord_bot::discord::parse_message::classify_frame;
use twitch_discord_bot::discord::parse_message::GatewayFrameKind;

#[test]
fn frames_classify_by_their_markers() {
    assert_eq!(classify_frame(r#"{"op":9,"d":true}"#), GatewayFrameKind::InvalidSession);
    assert_eq!(classify_frame(r#"{"t":"READY","op":0}"#), GatewayFrameKind::Ready);
    assert_eq!(classify_frame(r#"{"t":"GUILD_CREATE","s":1}"#), GatewayFrameKind::GuildCreate);
    assert_eq!(classify_frame(r#"{"t":"MESSAGE_CREATE"}"#), GatewayFrameKind::MessageCreate);
    assert_eq!(classify_frame(r#"{"op":11}"#), GatewayFrameKind::HeartbeatAck);
    assert_eq!(
        classify_frame(r#"{"op":10,"d":{"heartbeat_interval":41250}}"#),
        GatewayFrameKind::Hello
    );
    assert_eq!(classify_frame(r#"{"op":7}"#), GatewayFrameKind::Unknown);
}

#[test]
fn resumable_invalid_session_sends_resume_with_stored_sequence() {
    let mut bot = create_discord_bot("tok".to_string(), 0);
    // A ready stores the session id; a guild-create stores the sequence.
    assert!(bot.read_message(r#"{"t":"READY","d":{"session_id":"abc","v":8}}"#, 0).is_ok());
    assert_eq!(bot.session_id, "abc");
    assert!(bot.read_message(r#"{"op":0,"s":42,"t":"GUILD_CREATE","d":{}}"#, 0).is_ok());
    assert_eq!(bot.last_sequence, Some(42));
    // "invalid session, resumable": the resume request carries both.
    let r = bot.read_message(r#"{"op":9,"d":true}"#, 0);
    let line = r.unwrap().unwrap();
    assert_eq!(
        line,
        r#"{"op": 6,"d": {"token": "tok","session_id": "abc","seq": 42}}"#
    );
}

#[test]
fn unresumable_invalid_session_forces_full_reconnect() {
    let mut bot = create_discord_bot("tok".to_string(), 0);
    let r = bot.read_message(r#"{"op":9,"d":false}"#, 0);
    assert!(r.is_err());
    // Nothing was stored and no resume went out.
    assert_eq!(bot.last_sequence, None);
}

#[test]
fn resume_without_any_sequence_says_zero() {
    let bot = create_discord_bot("tok".to_string(), 0);
    assert_eq!(
        bot.resume(),
        r#"{"op": 6,"d": {"token": "tok","session_id": "","seq": 0}}"#
    );
}

#[test]
fn hello_adopts_cadence_and_identifies() {
    let mut bot = create_discord_bot("tok".to_string(), 5);
    let identify = bot.setup(r#"{"op":10,"d":{"heartbeat_interval":41250}}"#, 5).unwrap();
    assert_eq!(bot.heartbeat_interval_ms, 41250);
    assert!(identify.starts_with(r#"{"op": 2,"d": {"token": "tok","#));
    assert!(identify.contains(r#""intents": 513"#));
    // Frames before the hello keep the session waiting.
    let mut fresh = create_discord_bot("tok".to_string(), 5);
    assert!(fresh.setup(r#"{"op":11}"#, 5).is_none());
}

#[test]
fn hello_during_reads_starts_heartbeats() {
    let mut bot = create_discord_bot("tok".to_string(), 0);
    let r = bot.read_message(r#"{"op":10,"d":{"heartbeat_interval":41250}}"#, 7);
    assert_eq!(r.unwrap().as_deref(), Some(r#"{"op": 1, "d": null}"#));
    assert_eq!(bot.heartbeat_interval_ms, 41250);
    assert_eq!(bot.last_heartbeat_ms, 7);
}

#[test]
fn heartbeats_follow_the_cadence() {
    let mut bot = create_discord_bot("tok".to_string(), 0);
    assert_eq!(bot.heartbeat_interval_ms, 44500);
    assert!(bot.send_heartbeat(44_499).is_none());
    let hb = bot.send_heartbeat(44_500);
    assert_eq!(hb.as_deref(), Some(r#"{"op": 1, "d": null}"#));
    assert_eq!(bot.last_heartbeat_ms, 44_500);
    assert!(bot.send_heartbeat(44_501).is_none());
}

#[test]
fn heartbeat_ack_and_message_create_are_quiet() {
    let mut bot = create_discord_bot("tok".to_string(), 0);
    assert_eq!(bot.read_message(r#"{"op":11}"#, 0).unwrap(), None);
    assert_eq!(bot.read_message(r#"{"t":"MESSAGE_CREATE","d":{}}"#, 0).unwrap(), None);
}

#[test]
fn unknown_frames_are_dropped() {
    // An unrecognized payload shape is dropped, never fatal: no error, no
    // reply, and nothing of the session changes.
    let mut bot = create_discord_bot("tok".to_string(), 0);
    let interval = bot.heartbeat_interval_ms;
    assert_eq!(bot.read_message(r#"{"op":7}"#, 0).unwrap(), None);
    assert_eq!(bot.heartbeat_interval_ms, interval);
    assert_eq!(bot.last_sequence, None);
    assert_eq!(bot.session_id, "");
}

#[test]
fn gateway_reconnect_pacing_uses_jittered_base() {
    let mut bot = create_discord_bot("tok".to_string(), 0);
    let base = bot.backoff.base_delay_ms;
    assert!((1000..5000).contains(&base));
    assert!(bot.setup_again(0));
    bot.on_connect_failure(0);
    assert!(!bot.setup_again(base.saturating_mul(2) - 1));
    assert!(bot.setup_again(base * 2));
    bot.on_connect_success();
    assert_eq!(bot.backoff.current_delay_ms, base);
}
