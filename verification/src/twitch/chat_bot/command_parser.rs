//! Answers chat commands: a message whose trimmed text equals a command key
//! is answered with that command's reply, one line per matching entry, in
//! table order.

use crate::send_msg::send_msg;
use crate::send_msg::spec_privmsg_line;
use crate::text::spec_trim;
use crate::text::str_eq;
use crate::text::trim_owned;
use crate::twitch::chat_bot::msg_parser::TwitchChatMsg;
use vstd::prelude::*;

verus! {

/// The pairs of a command table, as plain character sequences.
pub open spec fn spec_pairs_view(pairs: Seq<(String, String)>) -> Seq<(Seq<char>, Seq<char>)> {
    pairs.map_values(|p: (String, String)| (p.0@, p.1@))
}

/// The reply lines that `message`, written in `channel`, draws from the
/// command table: one `PRIVMSG` line per entry whose key equals the trimmed
/// message, in table order.
pub open spec fn spec_cmd_replies(
    message: Seq<char>,
    channel: Seq<char>,
    commands: Seq<(Seq<char>, Seq<char>)>,
) -> Seq<Seq<char>>
    decreases commands.len(),
{
    if commands.len() == 0 {
        Seq::empty()
    } else {
        spec_cmd_replies(message, channel, commands.drop_last()) + (if spec_trim(message)
            == commands.last().0 {
            seq![spec_privmsg_line(channel, commands.last().1)]
        } else {
            Seq::<Seq<char>>::empty()
        })
    }
}

/// The replies owed to one parsed chat message under the given command
/// table. The table is consumed as an opaque exact-match mapping from
/// command text to reply text.
pub fn cmd_response(msg: &TwitchChatMsg, commands: &Vec<(String, String)>) -> (replies: Vec<
    String,
>)
    ensures
        replies.deep_view() == spec_cmd_replies(
            msg.message@,
            msg.channel_name@,
            spec_pairs_view(commands@),
        ),
{
    let trimmed = trim_owned(msg.message.as_str());
    let mut replies: Vec<String> = Vec::new();
    let n = commands.len();
    let mut i: usize = 0;
    while i < n
        invariant
            0 <= i <= n,
            n == commands@.len(),
            trimmed@ == spec_trim(msg.message@),
            replies.deep_view() == spec_cmd_replies(
                msg.message@,
                msg.channel_name@,
                spec_pairs_view(commands@.subrange(0, i as int)),
            ),
        decreases n - i,
    {
        let ghost prev = replies.deep_view();
        let pair = &commands[i];
        if str_eq(trimmed.as_str(), pair.0.as_str()) {
            let line = send_msg(&msg.channel_name, pair.1.clone());
            replies.push(line);
        }
        proof {
            let cur = spec_pairs_view(commands@.subrange(0, i + 1));
            assert(cur.drop_last() =~= spec_pairs_view(commands@.subrange(0, i as int)));
            assert(cur.last() == (commands@[i as int].0@, commands@[i as int].1@));
            if spec_trim(msg.message@) == commands@[i as int].0@ {
                assert(replies.deep_view() =~= prev.push(
                    spec_privmsg_line(msg.channel_name@, commands@[i as int].1@),
                ));
                assert(replies.deep_view() =~= spec_cmd_replies(
                    msg.message@,
                    msg.channel_name@,
                    cur,
                ));
            } else {
                assert(replies.deep_view() =~= spec_cmd_replies(
                    msg.message@,
                    msg.channel_name@,
                    cur,
                ));
            }
        }
        i += 1;
    }
    proof {
        assert(commands@.subrange(0, n as int) =~= commands@);
    }
    replies
}

} // verus!
