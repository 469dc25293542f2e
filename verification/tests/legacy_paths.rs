use twitch_discord_bot::channel_points_redemption::channel_points_redemption;
use twitch_discord_bot::chat_command::cmd_response;
use twitch_discord_bot::common_structs::channel_points::Msg;
use twitch_discord_bot::common_structs::channel_points::MsgData;
use twitch_discord_bot::common_structs::channel_points::Redemption;
use twitch_discord_bot::common_structs::channel_points::RedemptionReward;
use twitch_discord_bot::common_structs::channel_points::RedemptionUser;
use twitch_discord_bot::common_structs::channel_points::RewardDefaultImage;
use twitch_discord_bot::common_structs::channel_points::RewardMaxPerStream;
use twitch_discord_bot::new_follower::new_follower;
use twitch_discord_bot::nonce;
use twitch_discord_bot::twitch::chat_bot::msg_parser::parse_twitch_msg;
use twitch_discord_bot::twitch::topics_bot::follower::NewFollower;

fn legacy_msg(title: &str, prompt: &str, timestamp: &str, who: &str) -> Msg {
    Msg {
        event: "reward-redeemed".to_string(),
        data: MsgData {
            timestamp: timestamp.to_string(),
            redemption: Redemption {
                id: "r1".to_string(),
                user: RedemptionUser {
                    id: "u1".to_string(),
                    login: who.to_lowercase(),
                    display_name: who.to_string(),
                },
                channel_id: "123".to_string(),
                redeemed_at: "later".to_string(),
                reward: RedemptionReward {
                    channel_id: "123".to_string(),
                    title: title.to_string(),
                    prompt: prompt.to_string(),
                    cost: 50,
                    is_user_input_required: false,
                    is_sub_only: false,
                    default_image: RewardDefaultImage {
                        url_1x: String::new(),
                        url_2x: String::new(),
                        url_4x: String::new(),
                    },
                    background_color: "#000000".to_string(),
                    is_enabled: true,
                    is_paused: false,
                    is_in_stock: true,
                    max_per_stream: RewardMaxPerStream { is_enabled: false, max_per_stream: 0 },
                    should_redemptions_skip_request_queue: false,
                },
                user_input: None,
                status: "FULFILLED".to_string(),
            },
        },
    }
}

#[test]
fn legacy_redemption_path_decides_the_same_effects() {
    let step = channel_points_redemption(&legacy_msg("Hydrate!", "water", "t0", "Al"));
    assert_eq!(step.notices.len(), 1);
    assert_eq!(step.notices[0].summary, "Hydrate!");
    assert!(!step.spawn_terminal);

    // The legacy shape stamps the suggestion with the message timestamp.
    let step = channel_points_redemption(&legacy_msg("Suggest Side", "rice", "t0", "Al"));
    assert_eq!(step.suggestion_line.as_deref(), Some("[t0] <Al>: rice\n"));

    let step = channel_points_redemption(&legacy_msg("Initiate", "go", "t0", "Al"));
    assert!(step.spawn_terminal);
    assert_eq!(step.notices.len(), 1);
}

#[test]
fn top_level_command_reply_matches_adapter_rule() {
    let commands = vec![("!help".to_string(), "read the docs".to_string())];
    let line = "@display-name=Z :z!z@z.tmi.twitch.tv PRIVMSG #bob :  !help ";
    let msg = parse_twitch_msg(line.to_string()).unwrap();
    let replies = cmd_response(&msg, &commands);
    assert_eq!(replies, vec!["PRIVMSG #bob :read the docs".to_string()]);
}

#[test]
fn top_level_follower_notice() {
    let f = NewFollower {
        display_name: "Kim".to_string(),
        username: "kim".to_string(),
        user_id: "4".to_string(),
    };
    let n = new_follower(&f);
    assert_eq!(n.summary, "Tron awaits you, Kim!");
}

#[test]
fn nonce_is_eighteen_characters() {
    let a = nonce();
    assert_eq!(a.chars().count(), 18);
}
