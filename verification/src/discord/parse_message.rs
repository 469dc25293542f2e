//! Classifies one inbound gateway frame by its opcode or event name and
//! decides what it obliges the session to do: resume, remember the session
//! id or sequence number, adopt the heartbeat cadence, or drop the frame.
//!
//! The data shapes the gateway delivers are held as plain values; the
//! caller decodes full payloads where it needs them.

use crate::discord::DiscordBot;
use crate::envelope::json_bool_field;
use crate::envelope::json_str_field;
use crate::envelope::json_u64_field;
use crate::envelope::spec_bool_field;
use crate::envelope::spec_num_field;
use crate::envelope::spec_str_field;
use crate::text::contains_pat;
use crate::text::spec_contains;
use vstd::prelude::*;

verus! {

/// An unrecoverable gateway condition: the session must be torn down and
/// set up afresh.
#[derive(Clone, Copy, PartialEq, Eq, Structural, Debug)]
pub struct Disconnected;

pub struct DiscordRolesObj {
    pub id: String,
    pub name: String,
    pub color: i64,
    pub hoist: bool,
    pub position: i64,
    pub permissions: String,
    pub managed: bool,
    pub mentionable: bool,
}

pub struct DiscordUserObj {
    pub username: String,
    pub discriminator: String,
    pub id: String,
    pub avatar: Option<String>,
    pub bot: bool,
    pub system: bool,
    pub mfa_enabled: bool,
    pub locale: String,
    pub verified: bool,
    pub email: Option<String>,
    pub flags: i64,
    pub premium_type: i64,
    pub public_flags: i64,
}

/// The all-empty user record, field by field.
pub open spec fn spec_empty_user(u: DiscordUserObj) -> bool {
    &&& u.username@ == Seq::<char>::empty()
    &&& u.discriminator@ == Seq::<char>::empty()
    &&& u.id@ == Seq::<char>::empty()
    &&& u.avatar matches Some(a) && a@ == Seq::<char>::empty()
    &&& !u.bot && !u.system && !u.mfa_enabled && !u.verified
    &&& u.locale@ == Seq::<char>::empty()
    &&& u.email matches Some(e) && e@ == Seq::<char>::empty()
    &&& u.flags == 0 && u.premium_type == 0 && u.public_flags == 0
}

impl Default for DiscordUserObj {
    /// An all-empty user record.
    fn default() -> (r: Self)
        ensures
            spec_empty_user(r),
    {
        DiscordUserObj {
            username: String::new(),
            discriminator: String::new(),
            id: String::new(),
            avatar: Some(String::new()),
            bot: false,
            system: false,
            mfa_enabled: false,
            locale: String::new(),
            verified: false,
            email: Some(String::new()),
            flags: 0,
            premium_type: 0,
            public_flags: 0,
        }
    }
}

pub struct DiscordGuildMember {
    pub user: DiscordUserObj,
    pub nick: Option<String>,
    pub roles: Vec<String>,
    pub joined_at: String,
    pub premium_since: Option<String>,
    pub deaf: bool,
    pub mute: bool,
}

/// The all-empty member record: an empty user, one empty role, and every
/// other field empty or false.
pub open spec fn spec_empty_member(m: DiscordGuildMember) -> bool {
    &&& spec_empty_user(m.user)
    &&& m.nick matches Some(nk) && nk@ == Seq::<char>::empty()
    &&& m.roles@.len() == 1 && m.roles@[0]@ == Seq::<char>::empty()
    &&& m.joined_at@ == Seq::<char>::empty()
    &&& m.premium_since matches Some(p) && p@ == Seq::<char>::empty()
    &&& !m.deaf && !m.mute
}

impl Default for DiscordGuildMember {
    /// An all-empty member record with one empty role.
    fn default() -> (r: Self)
        ensures
            spec_empty_member(r),
    {
        let mut roles: Vec<String> = Vec::new();
        roles.push(String::new());
        DiscordGuildMember {
            user: DiscordUserObj::default(),
            nick: Some(String::new()),
            roles,
            joined_at: String::new(),
            premium_since: Some(String::new()),
            deaf: false,
            mute: false,
        }
    }
}

pub struct DiscordVoiceState {
    pub guild_id: String,
    pub channel_id: Option<String>,
    pub user_id: String,
    pub member: DiscordGuildMember,
    pub session_id: String,
    pub deaf: bool,
    pub mute: bool,
    pub self_deaf: bool,
    pub self_mute: bool,
    pub self_stream: bool,
    pub self_video: bool,
    pub supress: bool,
}

impl Default for DiscordVoiceState {
    /// An all-empty voice state.
    fn default() -> (r: Self)
        ensures
            r.guild_id@ == Seq::<char>::empty(),
            r.channel_id matches Some(c) && c@ == Seq::<char>::empty(),
            r.user_id@ == Seq::<char>::empty(),
            spec_empty_member(r.member),
            r.session_id@ == Seq::<char>::empty(),
            !r.deaf && !r.mute && !r.self_deaf && !r.self_mute,
            !r.self_stream && !r.self_video && !r.supress,
    {
        DiscordVoiceState {
            guild_id: String::new(),
            channel_id: Some(String::new()),
            user_id: String::new(),
            member: DiscordGuildMember::default(),
            session_id: String::new(),
            deaf: false,
            mute: false,
            self_deaf: false,
            self_mute: false,
            self_stream: false,
            self_video: false,
            supress: false,
        }
    }
}

pub struct CreateGuildEmoji {
    pub id: String,
    pub name: String,
    pub roles: Option<Vec<String>>,
    pub user: DiscordUserObj,
    pub require_colons: bool,
    pub managed: bool,
    pub animated: bool,
    pub available: bool,
}

pub struct CreateGuildChannelPermissionOverwrites {
    pub allow: String,
    pub deny: String,
    pub id: String,
    pub t: i64,
}

pub struct CreateGuildChannels {
    pub id: String,
    pub channel_type: i64,
    pub guild_id: String,
    pub name: String,
    pub position: i64,
    pub permission_overwrites: Vec<CreateGuildChannelPermissionOverwrites>,
    pub rate_limit_per_user: i64,
    pub nsfw: bool,
    pub topic: Option<String>,
    pub last_message_id: Option<String>,
    pub user_limit: i64,
    pub parent_id: Option<String>,
    pub bitrate: i64,
    pub recipients: Vec<DiscordUserObj>,
}

pub struct CreateGuildData {
    pub id: String,
    pub name: String,
    pub icon: Option<String>,
    pub icon_hash: Option<String>,
    pub splash: Option<String>,
    pub discovery_splash: Option<String>,
    pub owner: bool,
    pub owner_id: String,
    pub region: String,
    pub afk_channel_id: Option<String>,
    pub afk_timeout: i64,
    pub widget_enabled: bool,
    pub widget_channel_id: Option<String>,
    pub verification_level: i64,
    pub default_message_notifications: i64,
    pub explicit_content_filter: i64,
    pub roles: Vec<DiscordRolesObj>,
    pub emojis: Vec<CreateGuildEmoji>,
    pub features: Vec<String>,
    pub mfa_level: i64,
    pub application_id: Option<String>,
    pub system_channel_id: Option<String>,
    pub system_channel_flags: i64,
    pub rules_channel_id: Option<String>,
    pub joined_at: String,
    pub large: bool,
    pub unavailable: bool,
    pub member_count: i64,
    pub voice_states: Vec<DiscordVoiceState>,
    pub members: Vec<DiscordGuildMember>,
    pub max_presences: Option<i64>,
    pub max_members: i64,
    pub vanity_url_code: Option<String>,
    pub description: Option<String>,
    pub banner: Option<String>,
    pub premium_tier: i64,
    pub premium_subscription_count: i64,
    pub preferred_locale: String,
    pub public_updates_channel_id: Option<String>,
    pub max_video_channel_users: i64,
    pub approximate_member_count: i64,
    pub approximate_presence_count: i64,
}

pub struct CreateGuild {
    pub op: i64,
    pub s: i64,
    pub d: CreateGuildData,
}

pub struct HeatBeatMessage {
    pub op: u16,
    pub d: Option<i16>,
}

pub struct HeartBeatData {
    pub heartbeat_interval: u64,
}

pub struct DiscordHeatBeat {
    pub op: u8,
    pub d: HeartBeatData,
}

pub struct DiscordReadyUser {
    pub id: String,
    pub username: String,
    pub discriminator: String,
    pub avatar: Option<String>,
    pub bot: bool,
}

pub struct DiscordReadyGuilds {
    pub unavailable: bool,
    pub id: String,
}

pub struct DiscordReadyData {
    pub v: i64,
    pub user: DiscordReadyUser,
    pub private_channels: Vec<String>,
    pub guilds: Vec<DiscordReadyGuilds>,
    pub session_id: String,
    pub shard: i64,
}

pub struct DiscordReadyRes {
    pub t: String,
    pub d: DiscordReadyData,
}

/// What kind of frame arrived, decided by the first matching marker, in
/// the order the markers are checked.
#[derive(Clone, Copy, PartialEq, Eq, Structural, Debug)]
pub enum GatewayFrameKind {
    InvalidSession,
    Ready,
    GuildCreate,
    MessageCreate,
    HeartbeatAck,
    Hello,
    Unknown,
}

/// The marker texts, checked in this order.
pub open spec fn spec_classify(t: Seq<char>) -> GatewayFrameKind {
    if spec_contains(t, "\"op\":9"@) {
        GatewayFrameKind::InvalidSession
    } else if spec_contains(t, "\"t\":\"READY\""@) {
        GatewayFrameKind::Ready
    } else if spec_contains(t, "\"t\":\"GUILD_CREATE\""@) {
        GatewayFrameKind::GuildCreate
    } else if spec_contains(t, "\"t\":\"MESSAGE_CREATE\""@) {
        GatewayFrameKind::MessageCreate
    } else if spec_contains(t, "\"op\":11"@) {
        GatewayFrameKind::HeartbeatAck
    } else if spec_contains(t, "\"op\":10"@) {
        GatewayFrameKind::Hello
    } else {
        GatewayFrameKind::Unknown
    }
}

/// Classifies one frame by its markers.
pub fn classify_frame(msg: &str) -> (k: GatewayFrameKind)
    ensures
        k == spec_classify(msg@),
{
    if contains_pat(msg, "\"op\":9") {
        GatewayFrameKind::InvalidSession
    } else if contains_pat(msg, "\"t\":\"READY\"") {
        GatewayFrameKind::Ready
    } else if contains_pat(msg, "\"t\":\"GUILD_CREATE\"") {
        GatewayFrameKind::GuildCreate
    } else if contains_pat(msg, "\"t\":\"MESSAGE_CREATE\"") {
        GatewayFrameKind::MessageCreate
    } else if contains_pat(msg, "\"op\":11") {
        GatewayFrameKind::HeartbeatAck
    } else if contains_pat(msg, "\"op\":10") {
        GatewayFrameKind::Hello
    } else {
        GatewayFrameKind::Unknown
    }
}

pub struct DiscordMsgParser {}

/// Everything one gateway frame obliges the session to do, relating the
/// state before (`pre`) and after (`post`) to the frame text `t` and the
/// outcome `r`. `Err` demands a full reconnect and arises only from an
/// invalid session that is not resumable. A frame of a kind the session
/// does not recognize, or of a known kind whose field cannot be read, is
/// dropped: no error, nothing changes, nothing is sent.
pub open spec fn spec_gateway_step(
    pre: DiscordBot,
    post: DiscordBot,
    t: Seq<char>,
    now_ms: u64,
    r: Result<Option<String>, Disconnected>,
) -> bool {
    match spec_classify(t) {
        GatewayFrameKind::InvalidSession => {
            &&& post == pre
            &&& match spec_bool_field(t, "d"@) {
                Some(true) => r matches Ok(a) && a matches Some(l) && l@
                    == crate::discord::spec_resume_msg(
                    pre.bot_token@,
                    pre.session_id@,
                    pre.spec_seq_or_zero(),
                ),
                Some(false) => r is Err,
                None => r == Ok::<Option<String>, Disconnected>(None),
            }
        },
        GatewayFrameKind::Ready => {
            &&& r == Ok::<Option<String>, Disconnected>(None)
            &&& match spec_str_field(t, "session_id"@) {
                Some(sid) => post.session_id@ == sid && post == (DiscordBot {
                    session_id: post.session_id,
                    ..pre
                }),
                None => post == pre,
            }
        },
        GatewayFrameKind::GuildCreate => {
            &&& r == Ok::<Option<String>, Disconnected>(None)
            &&& match spec_num_field(t, "s"@) {
                Some(n) => if n <= u64::MAX {
                    post.last_sequence == Some(n as u64) && post == (DiscordBot {
                        last_sequence: post.last_sequence,
                        ..pre
                    })
                } else {
                    post == pre
                },
                None => post == pre,
            }
        },
        GatewayFrameKind::MessageCreate => {
            &&& r == Ok::<Option<String>, Disconnected>(None)
            &&& post == pre
        },
        GatewayFrameKind::HeartbeatAck => {
            &&& r == Ok::<Option<String>, Disconnected>(None)
            &&& post == pre
        },
        GatewayFrameKind::Hello => {
            match spec_num_field(t, "heartbeat_interval"@) {
                Some(n) => if n <= u64::MAX {
                    &&& post.heartbeat_interval_ms == n as u64
                    &&& post.last_heartbeat_ms == now_ms
                    &&& post == (DiscordBot {
                        heartbeat_interval_ms: post.heartbeat_interval_ms,
                        last_heartbeat_ms: now_ms,
                        ..pre
                    })
                    &&& r matches Ok(a) && a matches Some(l) && l@
                        == crate::discord::spec_heartbeat_msg()
                } else {
                    post == pre && r == Ok::<Option<String>, Disconnected>(None)
                },
                None => post == pre && r == Ok::<Option<String>, Disconnected>(None),
            }
        },
        GatewayFrameKind::Unknown => {
            &&& r == Ok::<Option<String>, Disconnected>(None)
            &&& post == pre
        },
    }
}

impl DiscordMsgParser {
    /// Handles one gateway frame. `Err` demands a full reconnect: only an
    /// invalid session that is not resumable. `Ok` may carry a line to
    /// send back: the resume request for a resumable invalid session, or
    /// the first heartbeat right after a hello. A frame the session does
    /// not recognize, or a known frame whose field cannot be read, is
    /// dropped with nothing changed, never fatal.
    pub fn parse(bot: &mut DiscordBot, msg: &str, now_ms: u64) -> (r: Result<
        Option<String>,
        Disconnected,
    >)
        ensures
            final(bot).bot_token == old(bot).bot_token,
            final(bot).ws_url == old(bot).ws_url,
            final(bot).backoff == old(bot).backoff,
            spec_gateway_step(*old(bot), *final(bot), msg@, now_ms, r),
    {
        match classify_frame(msg) {
            GatewayFrameKind::InvalidSession => {
                match json_bool_field(msg, "d") {
                    Some(true) => Ok(Some(bot.resume())),
                    Some(false) => Err(Disconnected),
                    None => Ok(None),
                }
            },
            GatewayFrameKind::Ready => {
                match json_str_field(msg, "session_id") {
                    Some(sid) => {
                        bot.session_id = sid;
                    },
                    None => {},
                }
                Ok(None)
            },
            GatewayFrameKind::GuildCreate => {
                match json_u64_field(msg, "s") {
                    Some(n) => {
                        bot.last_sequence = Some(n);
                    },
                    None => {},
                }
                Ok(None)
            },
            GatewayFrameKind::MessageCreate => Ok(None),
            GatewayFrameKind::HeartbeatAck => Ok(None),
            GatewayFrameKind::Hello => {
                match json_u64_field(msg, "heartbeat_interval") {
                    Some(n) => {
                        bot.heartbeat_interval_ms = n;
                        bot.last_heartbeat_ms = now_ms;
                        Ok(Some(crate::discord::heartbeat_msg_text()))
                    },
                    None => Ok(None),
                }
            },
            GatewayFrameKind::Unknown => Ok(None),
        }
    }
}

} // verus!
