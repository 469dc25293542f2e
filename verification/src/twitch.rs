//! The two sessions kept with the chat platform: the IRC-style chat feed
//! and the topic-subscription feed.

pub mod chat_bot;
pub mod topics_bot;

use crate::backoff::BackoffPolicy;
use crate::keepalive::KeepAliveMonitor;
use crate::router::MessageRouter;
use crate::twitch::chat_bot::TwidshTshadBott;
use crate::twitch::topics_bot::TwidshPubSubBott;
use crate::twitch::topics_bot::HANDLER_CHANNEL_POINTS;
use crate::twitch::topics_bot::HANDLER_FOLLOWER;
use vstd::prelude::*;
use vstd::string::StringExecFns;

verus! {

/// A fresh chat session toward the fixed chat endpoint, pacing reconnects
/// from two seconds up to two minutes. The caller opens the socket itself.
pub fn setup_twitch_chat_ws(oauth_token: String) -> (bot: TwidshTshadBott)
    ensures
        bot.oauth_token == oauth_token,
        bot.socket_url@ == "wss://irc-ws.chat.twitch.tv:443"@,
        bot.backoff == BackoffPolicy::spec_new(2000, 120000),
        bot.backoff.wf(),
{
    TwidshTshadBott {
        oauth_token,
        socket_url: String::from_str("wss://irc-ws.chat.twitch.tv:443"),
        backoff: BackoffPolicy::new(2000, 120000),
    }
}

/// A fresh topic-feed session toward the fixed topic endpoint: reconnects
/// pace from two seconds up to two minutes; the keepalive probes every
/// four minutes, perturbed by a small random offset so restarts do not
/// probe in lockstep, and waits fifteen seconds for each pong. The
/// dispatch table routes redemption topics and follower topics to their
/// handlers. The caller opens the socket itself.
pub fn create_twitch_pubsub_ws(channel_id: String, now_ms: u64) -> (bot: TwidshPubSubBott)
    ensures
        bot.channel_id == channel_id,
        bot.socket_url@ == "wss://pubsub-edge.twitch.tv"@,
        bot.backoff == BackoffPolicy::spec_new(2000, 120000),
        bot.backoff.wf(),
        240100 <= bot.keepalive.probe_interval_ms < 240300,
        bot.keepalive.ack_timeout_ms == 15000,
        bot.keepalive.last_probe_ms == now_ms,
        bot.keepalive.expected_ack_ms is None,
        bot.router.wf(),
        bot.router.spec_lookup("channel-points-channel-v1"@) == Some(HANDLER_CHANNEL_POINTS),
        bot.router.spec_lookup("following"@) == Some(HANDLER_FOLLOWER),
        forall|p: Seq<char>|
            p != "channel-points-channel-v1"@ && p != "following"@ ==> bot.router.spec_lookup(
                p,
            ) is None,
{
    let jitter = crate::rand_in_range(100, 300);
    let mut router = MessageRouter::new();
    router.register(String::from_str("channel-points-channel-v1"), HANDLER_CHANNEL_POINTS);
    router.register(String::from_str("following"), HANDLER_FOLLOWER);
    proof {
        reveal_strlit("channel-points-channel-v1");
        reveal_strlit("following");
        assert("channel-points-channel-v1"@.len() == 25);
        assert("following"@.len() == 9);
    }
    TwidshPubSubBott {
        channel_id,
        socket_url: String::from_str("wss://pubsub-edge.twitch.tv"),
        backoff: BackoffPolicy::new(2000, 120000),
        keepalive: KeepAliveMonitor::new(240000 + jitter, 15000, now_ms),
        router,
    }
}

} // verus!
