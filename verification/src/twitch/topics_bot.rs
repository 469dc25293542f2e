//! The topic-feed adapter: subscribes to the channel's topics after a
//! connect, keeps the peer alive with client-initiated pings, and routes
//! each inbound envelope to the handler its topic prefix names.

pub mod channel_point_redemption;
pub mod follower;

use crate::backoff::BackoffPolicy;
use crate::common_structs::socket::Disconnected;
use crate::common_structs::twitch::TopicListenerData;
use crate::common_structs::twitch::TopicListenerMeta;
use crate::envelope::json_str_field;
use crate::envelope::spec_str_field;
use crate::keepalive::KeepAliveMonitor;
use crate::keepalive::KeepAliveVerdict;
use crate::router::spec_topic_prefix;
use crate::router::MessageRouter;
use crate::text::contains_pat;
use crate::text::spec_contains;
use vstd::prelude::*;
use vstd::string::StringExecFns;

verus! {

/// The handler identifier registered for channel-point redemptions.
pub const HANDLER_CHANNEL_POINTS: u64 = 1;

/// The handler identifier registered for new followers.
pub const HANDLER_FOLLOWER: u64 = 2;

/// The topic-feed session: the channel it watches, its reconnect pacing,
/// its ping/pong keepalive and its dispatch table. The socket stays with
/// the caller, who feeds inbound text frames in and writes the returned
/// lines out.
pub struct TwidshPubSubBott {
    pub channel_id: String,
    pub socket_url: String,
    pub backoff: BackoffPolicy,
    pub keepalive: KeepAliveMonitor,
    pub router: MessageRouter,
}

/// The keepalive probe the topic feed expects.
pub open spec fn spec_ping_msg() -> Seq<char> {
    "{\"type\": \"PING\"}"@
}

/// The redemption topic for a channel.
pub open spec fn spec_points_topic(channel_id: Seq<char>) -> Seq<char> {
    "channel-points-channel-v1."@ + channel_id
}

/// The follower topic for a channel.
pub open spec fn spec_follow_topic(channel_id: Seq<char>) -> Seq<char> {
    "following."@ + channel_id
}

/// The subscription request, exactly as it goes over the wire.
pub open spec fn spec_listen_msg(
    nonce_text: Seq<char>,
    channel_id: Seq<char>,
    auth_token: Seq<char>,
) -> Seq<char> {
    "{\"type\":\"LISTEN\",\"nonce\":\""@ + nonce_text + "\",\"data\":{\"topics\":[\""@
        + spec_points_topic(channel_id) + "\",\""@ + spec_follow_topic(channel_id)
        + "\"],\"auth_token\":\""@ + auth_token + "\"}}"@
}

/// Builds the subscription request for the given nonce, channel and token.
pub fn listen_msg_text(nonce_text: &String, channel_id: &String, auth_token: &String) -> (r:
    String)
    ensures
        r@ == spec_listen_msg(nonce_text@, channel_id@, auth_token@),
{
    let mut r = String::from_str("{\"type\":\"LISTEN\",\"nonce\":\"");
    r.append(nonce_text.as_str());
    r.append("\",\"data\":{\"topics\":[\"");
    r.append("channel-points-channel-v1.");
    r.append(channel_id.as_str());
    r.append("\",\"");
    r.append("following.");
    r.append(channel_id.as_str());
    r.append("\"],\"auth_token\":\"");
    r.append(auth_token.as_str());
    r.append("\"}}");
    proof {
        assert(r@ =~= spec_listen_msg(nonce_text@, channel_id@, auth_token@));
    }
    r
}

impl TwidshPubSubBott {
    /// Handles one inbound text frame. A frame carrying `PONG` clears the
    /// outstanding probe; a frame carrying `data` has its topic read and
    /// dispatched, and the handler registered for the topic's prefix is
    /// returned for the caller to run on the decoded payload. A frame that
    /// matches nothing is dropped silently.
    pub fn read_message(&mut self, frame: &str) -> (handler: Option<u64>)
        requires
            old(self).router.wf(),
        ensures
            final(self).channel_id == old(self).channel_id,
            final(self).socket_url == old(self).socket_url,
            final(self).backoff == old(self).backoff,
            final(self).router == old(self).router,
            final(self).keepalive == (if spec_contains(frame@, "PONG"@) {
                (KeepAliveMonitor { expected_ack_ms: None, ..old(self).keepalive })
            } else {
                old(self).keepalive
            }),
            handler == (if spec_contains(frame@, "data"@) {
                match spec_str_field(frame@, "topic"@) {
                    Some(t) => old(self).router.spec_lookup(spec_topic_prefix(t)),
                    None => None::<u64>,
                }
            } else {
                None::<u64>
            }),
    {
        if contains_pat(frame, "PONG") {
            self.keepalive.on_ack_received();
        }
        if contains_pat(frame, "data") {
            match json_str_field(frame, "topic") {
                Some(topic) => self.router.dispatch(topic.as_str()),
                None => None,
            }
        } else {
            None
        }
    }

    /// The subscription request this session sends when it goes live.
    pub fn generate_topics_msg(
        &self,
        nonce: String,
        channel_id: String,
        twitch_auth_token: String,
    ) -> (r: TopicListenerMeta)
        ensures
            r.event@ == "LISTEN"@,
            r.nonce == nonce,
            r.data.auth_token == twitch_auth_token,
            r.data.topics.deep_view() == seq![
                spec_points_topic(channel_id@),
                spec_follow_topic(channel_id@),
            ],
    {
        let mut points = String::from_str("channel-points-channel-v1.");
        points.append(channel_id.as_str());
        let mut follow = String::from_str("following.");
        follow.append(channel_id.as_str());
        let mut topics: Vec<String> = Vec::new();
        topics.push(points);
        topics.push(follow);
        proof {
            assert(topics.deep_view() =~= seq![
                spec_points_topic(channel_id@),
                spec_follow_topic(channel_id@),
            ]);
        }
        TopicListenerMeta {
            event: String::from_str("LISTEN"),
            nonce,
            data: TopicListenerData { topics, auth_token: twitch_auth_token },
        }
    }

    /// The two lines a fresh topic-feed connection sends: the subscription
    /// request under a fresh random nonce, then a first keepalive probe.
    /// Resets the backoff: the session is live again. The caller writes the
    /// lines in order.
    pub fn send_listen_msg(&mut self, twitch_auth_token: String) -> (lines: Vec<String>)
        requires
            old(self).backoff.wf(),
        ensures
            *final(self) == (TwidshPubSubBott {
                backoff: old(self).backoff.spec_record_success(),
                ..*old(self)
            }),
            lines@.len() == 2,
            exists|nz: Seq<char>|
                nz.len() == 18 && (forall|i: int|
                    0 <= i < nz.len() ==> crate::is_nonce_char(#[trigger] nz[i])) && lines@[0]@
                    == spec_listen_msg(nz, old(self).channel_id@, twitch_auth_token@),
            lines@[1]@ == spec_ping_msg(),
    {
        let nonce_text = crate::nonce();
        let listen = listen_msg_text(&nonce_text, &self.channel_id, &twitch_auth_token);
        let mut lines: Vec<String> = Vec::new();
        lines.push(listen);
        lines.push(String::from_str("{\"type\": \"PING\"}"));
        self.backoff.record_success();
        proof {
            assert(lines@[0]@ == spec_listen_msg(
                nonce_text@,
                old(self).channel_id@,
                twitch_auth_token@,
            ));
        }
        lines
    }

    /// One keepalive check: when a probe is owed, hands back the ping line
    /// to send; reports `TimedOut` when the peer has gone silent past the
    /// timeout.
    pub fn check_ping(&mut self, now_ms: u64) -> (r: (KeepAliveVerdict, Option<String>))
        ensures
            final(self).channel_id == old(self).channel_id,
            final(self).socket_url == old(self).socket_url,
            final(self).backoff == old(self).backoff,
            final(self).router == old(self).router,
            final(self).keepalive.probe_interval_ms == old(self).keepalive.probe_interval_ms,
            final(self).keepalive.ack_timeout_ms == old(self).keepalive.ack_timeout_ms,
            old(self).keepalive.spec_probe_due(now_ms) ==> r.0 == KeepAliveVerdict::Probe
                && final(self).keepalive.last_probe_ms == now_ms
                && final(self).keepalive.expected_ack_ms == Some(now_ms),
            old(self).keepalive.spec_timed_out(now_ms) ==> r.0 == KeepAliveVerdict::TimedOut
                && final(self).keepalive == old(self).keepalive,
            !old(self).keepalive.spec_probe_due(now_ms) && !old(self).keepalive.spec_timed_out(
                now_ms,
            ) ==> r.0 == KeepAliveVerdict::Healthy && final(self).keepalive == old(self).keepalive,
            r.0 == KeepAliveVerdict::Probe <==> (r.1 matches Some(l) && l@ == spec_ping_msg()),
            r.0 != KeepAliveVerdict::Probe ==> r.1 is None,
            r.0 == KeepAliveVerdict::Probe ==> old(self).keepalive.spec_probe_due(now_ms),
            r.0 == KeepAliveVerdict::TimedOut ==> old(self).keepalive.spec_timed_out(now_ms),
    {
        let v = self.keepalive.tick(now_ms);
        let line = match v {
            KeepAliveVerdict::Probe => Some(String::from_str("{\"type\": \"PING\"}")),
            _ => None,
        };
        (v, line)
    }

    /// The keepalive check as the supervision loop consumes it: `Err` is
    /// the disconnect signal, `Ok` carries the probe to send, if one is
    /// owed now.
    pub fn ping_pong(&mut self, now_ms: u64) -> (r: Result<Option<String>, Disconnected>)
        ensures
            final(self).channel_id == old(self).channel_id,
            final(self).socket_url == old(self).socket_url,
            final(self).backoff == old(self).backoff,
            final(self).router == old(self).router,
            r is Err <==> old(self).keepalive.spec_timed_out(now_ms),
            old(self).keepalive.spec_timed_out(now_ms) ==> final(self).keepalive == old(
                self,
            ).keepalive,
            old(self).keepalive.spec_probe_due(now_ms) ==> (r matches Ok(p) && (p matches Some(l)
                && l@ == spec_ping_msg())) && final(self).keepalive.last_probe_ms == now_ms
                && final(self).keepalive.expected_ack_ms == Some(now_ms),
            !old(self).keepalive.spec_probe_due(now_ms) && !old(self).keepalive.spec_timed_out(
                now_ms,
            ) ==> (r matches Ok(p) && p is None) && final(self).keepalive == old(self).keepalive,
    {
        let (v, line) = self.check_ping(now_ms);
        match v {
            KeepAliveVerdict::TimedOut => Err(Disconnected),
            _ => Ok(line),
        }
    }

    /// Consults the backoff policy: whether a reconnect attempt is due now.
    /// When none is due this is a no-op: nothing of the session, its delay
    /// or its last-attempt stamp changes.
    pub fn reconnect(&mut self, now_ms: u64) -> (attempt: bool)
        ensures
            attempt == old(self).backoff.spec_is_due(now_ms),
            *final(self) == *old(self),
    {
        self.backoff.is_due(now_ms)
    }

    /// Records a failed reconnect attempt: stamps it and doubles the delay,
    /// clamped at the cap.
    pub fn on_connect_failure(&mut self, now_ms: u64)
        requires
            old(self).backoff.wf(),
        ensures
            *final(self) == (TwidshPubSubBott {
                backoff: old(self).backoff.spec_record_failure(now_ms),
                ..*old(self)
            }),
    {
        self.backoff.record_failure(now_ms);
    }
}

} // verus!
