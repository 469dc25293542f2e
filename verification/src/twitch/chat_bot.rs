//! The chat-feed adapter: purely reactive keepalive (answer the server's
//! `PING` at once), command replies, and reconnect pacing through the
//! session's backoff policy.

pub mod command_parser;
pub mod msg_parser;

use crate::backoff::BackoffPolicy;
use crate::text::contains_pat;
use crate::text::spec_contains;
use crate::twitch::chat_bot::command_parser::cmd_response;
use crate::twitch::chat_bot::command_parser::spec_cmd_replies;
use crate::twitch::chat_bot::command_parser::spec_pairs_view;
use crate::twitch::chat_bot::msg_parser::parse_twitch_msg;
use crate::twitch::chat_bot::msg_parser::spec_channel;
use crate::twitch::chat_bot::msg_parser::spec_message;
use crate::twitch::chat_bot::msg_parser::spec_parse_ok;
use crate::twitch_chat_connect::spec_connect_lines;
use crate::twitch_chat_connect::twitch_chat_connect_messages;
use vstd::prelude::*;
use vstd::string::StringExecFns;

verus! {

/// The chat session: its credentials, where it connects, and its reconnect
/// pacing. The socket itself stays with the caller, who feeds inbound text
/// frames in and writes the returned lines out.
pub struct TwidshTshadBott {
    pub oauth_token: String,
    pub socket_url: String,
    pub backoff: BackoffPolicy,
}

/// The server-initiated keepalive token.
pub open spec fn spec_ping_pat() -> Seq<char> {
    seq!['P', 'I', 'N', 'G']
}

/// The immediate reply to the server's keepalive.
pub open spec fn spec_pong_line() -> Seq<char> {
    "PONG :tmi.twitch.tv"@
}

/// Everything one inbound chat frame obliges the session to send back: a
/// pong when the frame carries `PING`, then the command replies its parsed
/// message draws from the table.
pub open spec fn spec_chat_replies(
    t: Seq<char>,
    commands: Seq<(Seq<char>, Seq<char>)>,
) -> Seq<Seq<char>> {
    (if spec_contains(t, spec_ping_pat()) {
        seq![spec_pong_line()]
    } else {
        Seq::<Seq<char>>::empty()
    }) + (if spec_parse_ok(t) {
        spec_cmd_replies(spec_message(t), spec_channel(t), commands)
    } else {
        Seq::<Seq<char>>::empty()
    })
}

impl TwidshTshadBott {
    /// The line that answers the server's `PING`.
    pub fn send_ping(&self) -> (line: String)
        ensures
            line@ == spec_pong_line(),
    {
        String::from_str("PONG :tmi.twitch.tv")
    }

    /// Handles one inbound text frame: answers a server `PING` at once and
    /// answers any chat command the frame's message matches. The caller
    /// writes the returned lines to its socket in order; a frame that is
    /// neither is ignored, which is no error.
    pub fn read_message(&self, res: &str, commands: &Vec<(String, String)>) -> (replies: Vec<
        String,
    >)
        ensures
            replies.deep_view() == spec_chat_replies(res@, spec_pairs_view(commands@)),
    {
        proof {
            reveal_strlit("PING");
            assert("PING"@ =~= spec_ping_pat());
        }
        let mut replies: Vec<String> = Vec::new();
        if contains_pat(res, "PING") {
            replies.push(self.send_ping());
        }
        match parse_twitch_msg(String::from_str(res)) {
            Some(msg) => {
                let mut more = cmd_response(&msg, commands);
                replies.append(&mut more);
            },
            None => {},
        }
        proof {
            assert(replies.deep_view() =~= spec_chat_replies(res@, spec_pairs_view(commands@)));
        }
        replies
    }

    /// Replays the handshake after a (re)connect and resets the backoff:
    /// the session is live again. The caller writes the lines in order.
    pub fn send_listen_msg(&mut self) -> (lines: Vec<String>)
        requires
            old(self).backoff.wf(),
        ensures
            lines.deep_view() == spec_connect_lines(old(self).oauth_token@),
            *final(self) == (TwidshTshadBott {
                backoff: old(self).backoff.spec_record_success(),
                ..*old(self)
            }),
    {
        let lines = twitch_chat_connect_messages(&self.oauth_token);
        self.backoff.record_success();
        lines
    }

    /// Consults the backoff policy: whether a reconnect attempt is due now.
    /// When none is due this is a no-op: nothing of the session, its delay
    /// or its last-attempt stamp changes.
    pub fn reconnect(&mut self, now_ms: u64) -> (attempt: bool)
        ensures
            attempt == old(self).backoff.spec_is_due(now_ms),
            *final(self) == *old(self),
    {
        self.backoff.is_due(now_ms)
    }

    /// Records a failed reconnect attempt: stamps it and doubles the delay,
    /// clamped at the cap.
    pub fn on_connect_failure(&mut self, now_ms: u64)
        requires
            old(self).backoff.wf(),
        ensures
            *final(self) == (TwidshTshadBott {
                backoff: old(self).backoff.spec_record_failure(now_ms),
                ..*old(self)
            }),
    {
        self.backoff.record_failure(now_ms);
    }
}

} // verus!
