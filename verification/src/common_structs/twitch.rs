//! Topic-feed wire shapes: the subscription request sent after connecting
//! and the envelopes that come back, with the redemption payload they carry.

use vstd::prelude::*;

verus! {

/// Body of the subscription request: which topics, under which token.
pub struct TopicListenerData {
    pub topics: Vec<String>,
    pub auth_token: String,
}

/// The subscription request envelope.
pub struct TopicListenerMeta {
    pub event: String,
    pub nonce: String,
    pub data: TopicListenerData,
}

/// Inner payload of an inbound topic envelope: the topic it arrived on and
/// its once-more-encoded message text.
pub struct TopicsMsg {
    pub topic: String,
    pub message: String,
}

/// An inbound topic envelope.
pub struct TopicsResMetaMsg {
    pub event: String,
    pub data: TopicsMsg,
}

/// An inbound topic envelope whose inner message was decoded as a
/// redemption.
pub struct TopicsResMsg {
    pub event: String,
    pub data: RedemptionData,
}

pub struct RewardMaxPerStream {
    pub is_enabled: bool,
    pub max_per_stream: u32,
}

pub struct RewardImage {
    pub url_1x: String,
    pub url_2x: String,
    pub url_4x: String,
}

pub struct RewardDefaultImage {
    pub url_1x: String,
    pub url_2x: String,
    pub url_4x: String,
}

pub struct RedemptionUser {
    pub id: String,
    pub login: String,
    pub display_name: String,
}

pub struct RedemptionReward {
    pub channel_id: String,
    pub title: String,
    pub prompt: String,
    pub cost: i32,
    pub is_user_input_required: bool,
    pub is_sub_only: bool,
    pub default_image: RewardDefaultImage,
    pub background_color: String,
    pub is_enabled: bool,
    pub is_paused: bool,
    pub is_in_stock: bool,
    pub max_per_stream: RewardMaxPerStream,
    pub should_redemptions_skip_request_queue: bool,
}

pub struct Redemption {
    pub id: String,
    pub user: RedemptionUser,
    pub channel_id: String,
    pub redeemed_at: String,
    pub reward: RedemptionReward,
    pub user_input: Option<String>,
    pub status: String,
}

pub struct RedemptionData {
    pub timestamp: String,
    pub redemption: Redemption,
}

} // verus!
