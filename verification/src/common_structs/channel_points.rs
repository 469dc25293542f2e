//! Payload shapes of a channel-points redemption event, as the topic feed
//! delivers it: the outer envelope (`Res`), the once-more-encoded inner
//! message (`Msg`) and the redemption record it carries.

use vstd::prelude::*;

verus! {

pub struct RewardMaxPerStream {
    pub is_enabled: bool,
    pub max_per_stream: u32,
}

pub struct RewardImage {
    pub url_1x: String,
    pub url_2x: String,
    pub url_4x: String,
}

pub struct RewardDefaultImage {
    pub url_1x: String,
    pub url_2x: String,
    pub url_4x: String,
}

pub struct RedemptionUser {
    pub id: String,
    pub login: String,
    pub display_name: String,
}

pub struct RedemptionReward {
    pub channel_id: String,
    pub title: String,
    pub prompt: String,
    pub cost: i32,
    pub is_user_input_required: bool,
    pub is_sub_only: bool,
    pub default_image: RewardDefaultImage,
    pub background_color: String,
    pub is_enabled: bool,
    pub is_paused: bool,
    pub is_in_stock: bool,
    pub max_per_stream: RewardMaxPerStream,
    pub should_redemptions_skip_request_queue: bool,
}

pub struct Redemption {
    pub id: String,
    pub user: RedemptionUser,
    pub channel_id: String,
    pub redeemed_at: String,
    pub reward: RedemptionReward,
    pub user_input: Option<String>,
    pub status: String,
}

pub struct MsgData {
    pub timestamp: String,
    pub redemption: Redemption,
}

pub struct MetaMsg {
    pub topic: String,
    pub message: String,
}

pub struct Msg {
    pub event: String,
    pub data: MsgData,
}

pub struct Res {
    pub event: String,
    pub data: MetaMsg,
}

} // verus!
