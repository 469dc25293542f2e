//! Command replies for the chat feed, at the crate's top level: the same
//! exact-match rule as the chat adapter's own parser.

use crate::twitch::chat_bot::command_parser;
use crate::twitch::chat_bot::command_parser::spec_cmd_replies;
use crate::twitch::chat_bot::command_parser::spec_pairs_view;
use crate::twitch::chat_bot::msg_parser::TwitchChatMsg;
use vstd::prelude::*;

verus! {

/// The replies owed to one parsed chat message under the given command
/// table: one `PRIVMSG` line per entry whose key equals the trimmed
/// message, in table order.
pub fn cmd_response(msg: &TwitchChatMsg, commands: &Vec<(String, String)>) -> (replies: Vec<
    String,
>)
    ensures
        replies.deep_view() == spec_cmd_replies(
            msg.message@,
            msg.channel_name@,
            spec_pairs_view(commands@),
        ),
{
    command_parser::cmd_response(msg, commands)
}

} // verus!
