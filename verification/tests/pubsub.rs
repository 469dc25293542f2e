use twitch_discord_bot::common_structs::twitch::Redemption;
use twitch_discord_bot::common_structs::twitch::RedemptionData;
use twitch_discord_bot::common_structs::twitch::RedemptionReward;
use twitch_discord_bot::common_structs::twitch::RedemptionUser;
use twitch_discord_bot::common_structs::twitch::RewardDefaultImage;
use twitch_discord_bot::common_structs::twitch::RewardMaxPerStream;
use twitch_discord_bot::common_structs::twitch::TopicsResMsg;
use twitch_discord_bot::keepalive::KeepAliveVerdict;
use twitch_discord_bot::twitch::create_twitch_pubsub_ws;
use twitch_discord_bot::twitch::topics_bot::follower::new_follower;
use twitch_discord_bot::twitch::topics_bot::follower::NewFollower;
use twitch_discord_bot::twitch::topics_bot::channel_point_redemption::points_redeemed;
use twitch_discord_bot::twitch::topics_bot::listen_msg_text;
use twitch_discord_bot::twitch::topics_bot::HANDLER_CHANNEL_POINTS;
use twitch_discord_bot::twitch::topics_bot::HANDLER_FOLLOWER;

fn redemption_msg(title: &str, prompt: &str, redeemed_at: &str, who: &str) -> TopicsResMsg {
    TopicsResMsg {
        event: "reward-redeemed".to_string(),
        data: RedemptionData {
            timestamp: "2020-01-01T00:00:00Z".to_string(),
            redemption: Redemption {
                id: "r1".to_string(),
                user: RedemptionUser {
                    id: "u1".to_string(),
                    login: who.to_lowercase(),
                    display_name: who.to_string(),
                },
                channel_id: "123".to_string(),
                redeemed_at: redeemed_at.to_string(),
                reward: RedemptionReward {
                    channel_id: "123".to_string(),
                    title: title.to_string(),
                    prompt: prompt.to_string(),
                    cost: 50,
                    is_user_input_required: false,
                    is_sub_only: false,
                    default_image: RewardDefaultImage {
                        url_1x: String::new(),
                        url_2x: String::new(),
                        url_4x: String::new(),
                    },
                    background_color: "#000000".to_string(),
                    is_enabled: true,
                    is_paused: false,
                    is_in_stock: true,
                    max_per_stream: RewardMaxPerStream { is_enabled: false, max_per_stream: 0 },
                    should_redemptions_skip_request_queue: false,
                },
                user_input: None,
                status: "FULFILLED".to_string(),
            },
        },
    }
}

#[test]
fn points_envelope_routes_to_points_handler() {
    let mut bot = create_twitch_pubsub_ws("123".to_string(), 0);
    let frame = r#"{"type":"MESSAGE","data":{"topic":"channel-points-channel-v1.123","message":"{\"type\":\"reward-redeemed\"}"}}"#;
    let handler = bot.read_message(frame);
    assert_eq!(handler, Some(HANDLER_CHANNEL_POINTS));
    assert_ne!(handler, Some(HANDLER_FOLLOWER));
}

#[test]
fn follower_envelope_routes_to_follower_handler() {
    let mut bot = create_twitch_pubsub_ws("123".to_string(), 0);
    let frame = r#"{"type":"MESSAGE","data":{"topic":"following.123","message":"{}"}}"#;
    assert_eq!(bot.read_message(frame), Some(HANDLER_FOLLOWER));
}

#[test]
fn unknown_topic_and_plain_frames_route_nowhere() {
    let mut bot = create_twitch_pubsub_ws("123".to_string(), 0);
    let frame = r#"{"type":"MESSAGE","data":{"topic":"whispers.123","message":"{}"}}"#;
    assert_eq!(bot.read_message(frame), None);
    assert_eq!(bot.read_message(r#"{"type":"RESPONSE","error":"","nonce":"x"}"#), None);
}

#[test]
fn pong_clears_the_outstanding_probe() {
    let mut bot = create_twitch_pubsub_ws("123".to_string(), 0);
    let interval = bot.keepalive.probe_interval_ms;
    assert!((240100..240300).contains(&interval));
    let (v, line) = bot.check_ping(interval);
    assert_eq!(v, KeepAliveVerdict::Probe);
    assert_eq!(line.as_deref(), Some(r#"{"type": "PING"}"#));
    assert_eq!(bot.keepalive.expected_ack_ms, Some(interval));
    assert_eq!(bot.read_message(r#"{"type":"PONG"}"#), None);
    assert_eq!(bot.keepalive.expected_ack_ms, None);
}

#[test]
fn silent_peer_times_out_through_ping_pong() {
    let mut bot = create_twitch_pubsub_ws("123".to_string(), 0);
    let interval = bot.keepalive.probe_interval_ms;
    assert!(bot.ping_pong(interval).is_ok());
    // 15 seconds with no pong: the supervision loop sees a disconnect.
    assert!(bot.ping_pong(interval + 14_999).is_ok());
    assert!(bot.ping_pong(interval + 15_000).is_err());
}

#[test]
fn listen_message_shape_is_exact() {
    let msg = listen_msg_text(&"n0n".to_string(), &"123".to_string(), &"tok".to_string());
    assert_eq!(
        msg,
        r#"{"type":"LISTEN","nonce":"n0n","data":{"topics":["channel-points-channel-v1.123","following.123"],"auth_token":"tok"}}"#
    );
}

#[test]
fn going_live_sends_listen_then_ping() {
    let mut bot = create_twitch_pubsub_ws("123".to_string(), 0);
    bot.on_connect_failure(0);
    let lines = bot.send_listen_msg("tok".to_string());
    assert_eq!(lines.len(), 2);
    assert!(lines[0].starts_with(r#"{"type":"LISTEN","nonce":""#));
    assert!(lines[0].contains("channel-points-channel-v1.123"));
    assert!(lines[0].contains(r#""auth_token":"tok""#));
    assert_eq!(lines[1], r#"{"type": "PING"}"#);
    // Going live reset the backoff.
    assert_eq!(bot.backoff.current_delay_ms, 2000);
    assert_eq!(bot.backoff.last_attempt_ms, None);
}

#[test]
fn generated_subscription_carries_both_topics() {
    let bot = create_twitch_pubsub_ws("123".to_string(), 0);
    let meta = bot.generate_topics_msg("n".to_string(), "123".to_string(), "tok".to_string());
    assert_eq!(meta.event, "LISTEN");
    assert_eq!(meta.nonce, "n");
    assert_eq!(meta.data.auth_token, "tok");
    assert_eq!(
        meta.data.topics,
        vec!["channel-points-channel-v1.123".to_string(), "following.123".to_string()]
    );
}

#[test]
fn hydrate_redemption_asks_for_a_notification() {
    let msg = redemption_msg("Hydrate!", "Drink some water", "now", "Alice");
    let step = points_redeemed(&msg);
    assert_eq!(step.notices.len(), 1);
    assert_eq!(step.notices[0].summary, "Hydrate!");
    assert_eq!(step.notices[0].body, "Drink some water");
    assert_eq!(step.notices[0].image.as_deref(), Some("/home/mathias/Pictures/water.jpg"));
    assert!(step.suggestion_line.is_none());
    assert!(!step.spawn_terminal);
}

#[test]
fn suggest_side_redemption_asks_for_a_file_line() {
    let msg = redemption_msg("Suggest Side", "fries", "2020-06-06T12:00:00Z", "Bob");
    let step = points_redeemed(&msg);
    assert!(step.notices.is_empty());
    assert_eq!(
        step.suggestion_line.as_deref(),
        Some("[2020-06-06T12:00:00Z] <Bob>: fries\n")
    );
    assert!(!step.spawn_terminal);
}

#[test]
fn initiate_redemption_notifies_and_spawns() {
    let msg = redemption_msg("Initiate", "boot it", "now", "Eve");
    let step = points_redeemed(&msg);
    assert_eq!(step.notices.len(), 1);
    assert_eq!(step.notices[0].image.as_deref(), Some("/home/mathias/Pictures/terminal.jpg"));
    assert!(step.spawn_terminal);
}

#[test]
fn follower_notice_carries_the_display_name() {
    let f = NewFollower {
        display_name: "Sam".to_string(),
        username: "sam".to_string(),
        user_id: "9".to_string(),
    };
    let n = new_follower(&f);
    assert_eq!(n.summary, "Tron awaits you, Sam!");
    assert_eq!(n.body, "YOU ARE AMAZING! \u{1f970}");
    assert_eq!(n.image.as_deref(), Some("/home/mathias/Pictures/hackerman.jpg"));
}
