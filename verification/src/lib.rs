//! Core logic of a realtime chat/event bot that keeps three long-lived
//! connections alive (a topic-subscription feed, an IRC-style chat feed and a
//! gateway-style push feed), decides when to probe, back off and reconnect,
//! and routes parsed inbound events to registered handlers.
//!
//! All socket, notification and file work is left to the surrounding
//! application: the types here decide, from plain values, what to send and
//! what to do next.
#![allow(unused_imports)]

pub mod backoff;
pub mod channel_points_redemption;
pub mod chat_command;
pub mod common_structs;
pub mod discord;
pub mod envelope;
pub mod keepalive;
pub mod new_follower;
pub mod router;
pub mod send_msg;
pub mod text;
pub mod twitch;
pub mod twitch_chat_connect;

use rand::Rng;
use vstd::prelude::*;
use vstd::string::StringExecFns;

verus! {

/// A desktop notification, as plain values: what to show, not how. The
/// caller renders it; platforms without image support ignore the image.
pub struct Notice {
    pub summary: String,
    pub body: String,
    pub image: Option<String>,
}

/// A notice's content as plain character sequences.
pub open spec fn notice_view(n: Notice) -> (Seq<char>, Seq<char>, Option<Seq<char>>) {
    (
        n.summary@,
        n.body@,
        match n.image {
            Some(i) => Some(i@),
            None => None,
        },
    )
}

/// Builds a notification with the given summary, body and optionally an
/// image.
pub fn notif(summary: &str, body: &str, image: Option<&str>) -> (n: Notice)
    ensures
        n.summary@ == summary@,
        n.body@ == body@,
        match n.image {
            Some(i) => image matches Some(im) && i@ == im@,
            None => image is None,
        },
{
    let image_owned = match image {
        Some(im) => Some(String::from_str(im)),
        None => None,
    };
    Notice { summary: String::from_str(summary), body: String::from_str(body), image: image_owned }
}

/// An ASCII letter or digit, the only characters a nonce ever holds.
pub open spec fn is_nonce_char(c: char) -> bool {
    (48 <= c as u32 && c as u32 <= 57) || (65 <= c as u32 && c as u32 <= 90) || (97 <= c as u32
        && c as u32 <= 122)
}

/// Relies on rand's `thread_rng`, `Alphanumeric` and `Iterator::take`:
/// `Alphanumeric` samples single bytes from the set `[A-Za-z0-9]` and
/// nothing else, so eighteen samples give eighteen characters, each an
/// ASCII letter or digit. Nothing is assumed of which of them come back.
#[verifier::external_body]
pub fn nonce() -> (r: String)
    ensures
        r@.len() == 18,
        forall|i: int| 0 <= i < r@.len() ==> is_nonce_char(#[trigger] r@[i]),
{
    rand::thread_rng().sample_iter(&rand::distributions::Alphanumeric).take(18).map(
        char::from,
    ).collect()
}

/// Relies on rand's `Rng::gen_range`: a value drawn from `lo..hi`, which
/// panics only on an empty range. Nothing is assumed of which value comes
/// back, only its bounds.
#[verifier::external_body]
pub(crate) fn rand_in_range(lo: u64, hi: u64) -> (r: u64)
    requires
        lo < hi,
    ensures
        lo <= r < hi,
{
    rand::thread_rng().gen_range(lo..hi)
}

} // verus!
