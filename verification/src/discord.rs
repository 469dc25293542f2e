//! The gateway-feed adapter: identify after hello, periodic heartbeats at
//! the cadence the hello dictates, resume after a resumable invalid
//! session, and reconnect pacing through the session's backoff policy.

pub mod parse_message;

use crate::backoff::BackoffPolicy;
use crate::discord::parse_message::spec_classify;
use crate::discord::parse_message::spec_gateway_step;
use crate::discord::parse_message::DiscordMsgParser;
use crate::discord::parse_message::Disconnected;
use crate::discord::parse_message::GatewayFrameKind;
use crate::envelope::json_u64_field;
use crate::envelope::spec_bool_field;
use crate::envelope::spec_num_field;
use crate::text::spec_digits;
use crate::text::u64_to_string;
use vstd::prelude::*;
use vstd::string::StringExecFns;

verus! {

/// The gateway session: its credentials, what the server told it so far
/// (session id, last sequence number, heartbeat cadence) and its reconnect
/// pacing. The socket stays with the caller, who feeds inbound text frames
/// in and writes the returned lines out.
pub struct DiscordBot {
    pub bot_token: String,
    pub ws_url: String,
    pub session_id: String,
    pub backoff: BackoffPolicy,
    pub heartbeat_interval_ms: u64,
    pub last_heartbeat_ms: u64,
    pub last_sequence: Option<u64>,
}

/// The periodic heartbeat line.
pub open spec fn spec_heartbeat_msg() -> Seq<char> {
    "{\"op\": 1, \"d\": null}"@
}

/// Builds the heartbeat line.
pub fn heartbeat_msg_text() -> (r: String)
    ensures
        r@ == spec_heartbeat_msg(),
{
    String::from_str("{\"op\": 1, \"d\": null}")
}

/// The resume request carrying the token, the saved session id and the
/// last observed sequence number.
pub open spec fn spec_resume_msg(token: Seq<char>, session_id: Seq<char>, seq: int) -> Seq<char> {
    "{\"op\": 6,\"d\": {\"token\": \""@ + token + "\",\"session_id\": \""@ + session_id
        + "\",\"seq\": "@ + spec_digits(seq) + "}}"@
}

/// The identify request sent once the server's hello arrived.
pub open spec fn spec_identify_msg(token: Seq<char>) -> Seq<char> {
    "{\"op\": 2,\"d\": {\"token\": \""@ + token
        + "\",\"intents\": 513,\"properties\": {\"$os\": \"linux\",\"$browser\": \"NeonBot\",\"$device\": \"NeonBot\"}}}"@
}

impl DiscordBot {
    /// The last observed sequence number, zero when none was seen yet.
    pub open spec fn spec_seq_or_zero(self) -> int {
        match self.last_sequence {
            Some(s) => s as int,
            None => 0int,
        }
    }

    /// The resume request for this session: last stored sequence number
    /// and saved session id. The caller writes it to its socket.
    pub fn resume(&self) -> (msg: String)
        ensures
            msg@ == spec_resume_msg(
                self.bot_token@,
                self.session_id@,
                self.spec_seq_or_zero(),
            ),
    {
        let seq: u64 = match self.last_sequence {
            Some(s) => s,
            None => 0,
        };
        let seq_text = u64_to_string(seq);
        let mut msg = String::from_str("{\"op\": 6,\"d\": {\"token\": \"");
        msg.append(self.bot_token.as_str());
        msg.append("\",\"session_id\": \"");
        msg.append(self.session_id.as_str());
        msg.append("\",\"seq\": ");
        msg.append(seq_text.as_str());
        msg.append("}}");
        proof {
            assert(msg@ =~= spec_resume_msg(
                self.bot_token@,
                self.session_id@,
                self.spec_seq_or_zero(),
            ));
        }
        msg
    }

    /// Handles one inbound text frame, exactly as `DiscordMsgParser::parse`
    /// decides it: the resume request for a resumable invalid session, the
    /// session id, sequence and heartbeat cadence stored from the frames
    /// that carry them, and everything unrecognized dropped with nothing
    /// changed. `Err` demands a full reconnect: only an invalid session
    /// that is not resumable.
    pub fn read_message(&mut self, frame: &str, now_ms: u64) -> (r: Result<
        Option<String>,
        Disconnected,
    >)
        ensures
            final(self).bot_token == old(self).bot_token,
            final(self).ws_url == old(self).ws_url,
            final(self).backoff == old(self).backoff,
            spec_gateway_step(*old(self), *final(self), frame@, now_ms, r),
            r is Err <==> (spec_classify(frame@) is InvalidSession && spec_bool_field(
                frame@,
                "d"@,
            ) == Some(false)),
    {
        DiscordMsgParser::parse(self, frame, now_ms)
    }

    /// The heartbeat owed now, if the cadence says one is: `Some` exactly
    /// when `heartbeat_interval_ms` has elapsed since the last one, which
    /// also stamps the new heartbeat time.
    pub fn send_heartbeat(&mut self, now_ms: u64) -> (r: Option<String>)
        ensures
            final(self).bot_token == old(self).bot_token,
            final(self).ws_url == old(self).ws_url,
            final(self).session_id == old(self).session_id,
            final(self).backoff == old(self).backoff,
            final(self).heartbeat_interval_ms == old(self).heartbeat_interval_ms,
            final(self).last_sequence == old(self).last_sequence,
            if now_ms >= old(self).last_heartbeat_ms + old(self).heartbeat_interval_ms {
                r matches Some(l) && l@ == spec_heartbeat_msg() && final(self).last_heartbeat_ms
                    == now_ms
            } else {
                r is None && final(self).last_heartbeat_ms == old(self).last_heartbeat_ms
            },
    {
        if now_ms >= self.last_heartbeat_ms && now_ms - self.last_heartbeat_ms
            >= self.heartbeat_interval_ms {
            self.last_heartbeat_ms = now_ms;
            Some(heartbeat_msg_text())
        } else {
            None
        }
    }

    /// One step of the setup handshake: waits for the server's hello,
    /// adopts its heartbeat cadence, and hands back the identify request
    /// to send. `None` means the hello has not arrived yet; the caller
    /// keeps feeding frames.
    pub fn setup(&mut self, frame: &str, now_ms: u64) -> (r: Option<String>)
        ensures
            final(self).bot_token == old(self).bot_token,
            final(self).ws_url == old(self).ws_url,
            final(self).session_id == old(self).session_id,
            final(self).backoff == old(self).backoff,
            final(self).last_sequence == old(self).last_sequence,
            ({
                let hello = spec_classify(frame@) is Hello;
                let iv = spec_num_field(frame@, "heartbeat_interval"@);
                if hello && (iv matches Some(n) && n <= u64::MAX) {
                    &&& final(self).heartbeat_interval_ms == iv->Some_0 as u64
                    &&& final(self).last_heartbeat_ms == now_ms
                    &&& r matches Some(l) && l@ == spec_identify_msg(old(self).bot_token@)
                } else {
                    *final(self) == *old(self) && r is None
                }
            }),
    {
        match parse_message::classify_frame(frame) {
            GatewayFrameKind::Hello => {
                match json_u64_field(frame, "heartbeat_interval") {
                    Some(n) => {
                        self.heartbeat_interval_ms = n;
                        self.last_heartbeat_ms = now_ms;
                        let mut msg = String::from_str("{\"op\": 2,\"d\": {\"token\": \"");
                        msg.append(self.bot_token.as_str());
                        msg.append(
                            "\",\"intents\": 513,\"properties\": {\"$os\": \"linux\",\"$browser\": \"NeonBot\",\"$device\": \"NeonBot\"}}}",
                        );
                        proof {
                            assert(msg@ =~= spec_identify_msg(old(self).bot_token@));
                        }
                        Some(msg)
                    },
                    None => None,
                }
            },
            _ => None,
        }
    }

    /// Consults the backoff policy: whether a fresh setup attempt is due
    /// now. When none is due this is a no-op: nothing of the session, its
    /// delay or its last-attempt stamp changes.
    pub fn setup_again(&mut self, now_ms: u64) -> (attempt: bool)
        ensures
            attempt == old(self).backoff.spec_is_due(now_ms),
            *final(self) == *old(self),
    {
        self.backoff.is_due(now_ms)
    }

    /// Records a failed reconnect attempt: stamps it and doubles the delay,
    /// clamped at the cap.
    pub fn on_connect_failure(&mut self, now_ms: u64)
        requires
            old(self).backoff.wf(),
        ensures
            *final(self) == (DiscordBot {
                backoff: old(self).backoff.spec_record_failure(now_ms),
                ..*old(self)
            }),
    {
        self.backoff.record_failure(now_ms);
    }

    /// Records a completed setup: resets the reconnect pacing.
    pub fn on_connect_success(&mut self)
        requires
            old(self).backoff.wf(),
        ensures
            *final(self) == (DiscordBot {
                backoff: old(self).backoff.spec_record_success(),
                ..*old(self)
            }),
    {
        self.backoff.record_success();
    }
}

/// A fresh gateway session toward the fixed gateway endpoint. Its
/// reconnect delay starts at a random one-to-five-second offset, so
/// restarts do not reconnect in lockstep, and is capped at two minutes;
/// the heartbeat cadence starts at the default the server replaces on
/// hello.
pub fn create_discord_bot(bot_token: String, now_ms: u64) -> (bot: DiscordBot)
    ensures
        bot.bot_token == bot_token,
        bot.ws_url@ == "wss://gateway.discord.gg/?v=8&encoding=json"@,
        bot.session_id@ == Seq::<char>::empty(),
        bot.backoff.wf(),
        1000 <= bot.backoff.base_delay_ms < 5000,
        bot.backoff.current_delay_ms == bot.backoff.base_delay_ms,
        bot.backoff.max_delay_ms == 120000,
        bot.backoff.last_attempt_ms is None,
        bot.heartbeat_interval_ms == 44500,
        bot.last_heartbeat_ms == now_ms,
        bot.last_sequence is None,
{
    let jitter = crate::rand_in_range(1000, 5000);
    DiscordBot {
        bot_token,
        ws_url: String::from_str("wss://gateway.discord.gg/?v=8&encoding=json"),
        session_id: String::new(),
        backoff: BackoffPolicy::new(jitter, 120000),
        heartbeat_interval_ms: 44500,
        last_heartbeat_ms: now_ms,
        last_sequence: None,
    }
}

} // verus!
