//! The chat feed's handshake: capability request, authentication, nick and
//! join, in the order the server expects them.

use vstd::prelude::*;
use vstd::string::StringExecFns;

verus! {

/// The `PASS` line carrying the chat token.
pub open spec fn spec_pass_line(token: Seq<char>) -> Seq<char> {
    "PASS "@ + token
}

/// The four handshake lines, in send order.
pub open spec fn spec_connect_lines(token: Seq<char>) -> Seq<Seq<char>> {
    seq![
        "CAP REQ :twitch.tv/tags twitch.tv/commands twitch.tv/membership"@,
        spec_pass_line(token),
        "NICK idontmatterlol"@,
        "JOIN #neonraytracer"@,
    ]
}

/// The lines a fresh chat connection must send before it is live. The
/// caller writes them to its socket in order.
pub fn twitch_chat_connect_messages(twitch_oauth_token: &String) -> (lines: Vec<String>)
    ensures
        lines.deep_view() == spec_connect_lines(twitch_oauth_token@),
{
    let mut lines: Vec<String> = Vec::new();
    lines.push(String::from_str(
        "CAP REQ :twitch.tv/tags twitch.tv/commands twitch.tv/membership",
    ));
    let mut pass = String::from_str("PASS ");
    pass.append(twitch_oauth_token.as_str());
    lines.push(pass);
    lines.push(String::from_str("NICK idontmatterlol"));
    lines.push(String::from_str("JOIN #neonraytracer"));
    proof {
        assert(lines.deep_view() =~= spec_connect_lines(twitch_oauth_token@));
    }
    lines
}

} // verus!
