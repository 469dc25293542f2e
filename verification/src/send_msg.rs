//! Builds an outbound chat line: `PRIVMSG <channel> :<text>`.

use crate::twitch::chat_bot::msg_parser::spec_privmsg_pat;
use crate::twitch::chat_bot::msg_parser::spec_sep_pat;
use vstd::prelude::*;
use vstd::string::StringExecFns;

verus! {

/// The chat line that carries `text` into `channel`.
pub open spec fn spec_privmsg_line(channel: Seq<char>, text: Seq<char>) -> Seq<char> {
    spec_privmsg_pat() + channel + spec_sep_pat() + text
}

/// The outbound line that answers in `channel_id` with `msg`. The caller
/// writes it to the socket it owns.
pub fn send_msg(channel_id: &String, msg: String) -> (line: String)
    ensures
        line@ == spec_privmsg_line(channel_id@, msg@),
{
    let mut line = String::from_str("PRIVMSG ");
    line.append(channel_id.as_str());
    line.append(" :");
    line.append(msg.as_str());
    proof {
        reveal_strlit("PRIVMSG ");
        reveal_strlit(" :");
        assert(line@ =~= spec_privmsg_line(channel_id@, msg@));
    }
    line
}

} // verus!
