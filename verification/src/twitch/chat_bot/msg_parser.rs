//! Parses one inbound IRC-style chat line into who wrote what, where.
//!
//! A line carries a message when it holds a `PRIVMSG ` command followed by a
//! channel name and a ` :`-led trailing segment. The sender's display name
//! comes from the `display-name=` tag when the line has one. A line of any
//! other shape yields no message, which is no error.

use crate::text::find_from;
use crate::text::spec_find;
use crate::text::substring_owned;
use vstd::prelude::*;

verus! {

/// One parsed chat message.
pub struct TwitchChatMsg {
    pub display_name: String,
    pub channel_name: String,
    pub message: String,
}

/// The `PRIVMSG ` command keyword, trailing space included.
pub open spec fn spec_privmsg_pat() -> Seq<char> {
    seq!['P', 'R', 'I', 'V', 'M', 'S', 'G', ' ']
}

/// The separator that opens a trailing text segment.
pub open spec fn spec_sep_pat() -> Seq<char> {
    seq![' ', ':']
}

/// The tag key that carries the sender's display name.
pub open spec fn spec_tag_pat() -> Seq<char> {
    seq!['d', 'i', 's', 'p', 'l', 'a', 'y', '-', 'n', 'a', 'm', 'e', '=']
}

/// Where the channel name starts: right after the first `PRIVMSG `.
pub open spec fn spec_chan_start(t: Seq<char>) -> int {
    spec_find(t, spec_privmsg_pat(), 0)->Some_0 + 8
}

/// Where the channel name ends: at the first ` :` after it.
pub open spec fn spec_chan_end(t: Seq<char>) -> int {
    spec_find(t, spec_sep_pat(), spec_chan_start(t))->Some_0
}

/// A line parses exactly when it has a `PRIVMSG ` command and a ` :` after
/// the channel name.
pub open spec fn spec_parse_ok(t: Seq<char>) -> bool {
    &&& spec_find(t, spec_privmsg_pat(), 0) is Some
    &&& spec_find(t, spec_sep_pat(), spec_chan_start(t)) is Some
}

/// The channel the message was written in.
pub open spec fn spec_channel(t: Seq<char>) -> Seq<char> {
    t.subrange(spec_chan_start(t), spec_chan_end(t))
}

/// The message text: everything after the ` :` that closes the channel name.
pub open spec fn spec_message(t: Seq<char>) -> Seq<char> {
    t.subrange(spec_chan_end(t) + 2, t.len() as int)
}

/// Where a tag value ends: at the first `;` or `' '` at or after `from`, or
/// at the end of the line.
pub open spec fn spec_name_end(t: Seq<char>, from: int) -> int
    decreases t.len() - from + 1,
{
    if from < 0 {
        0
    } else if from >= t.len() {
        t.len() as int
    } else if t[from] == ';' || t[from] == ' ' {
        from
    } else {
        spec_name_end(t, from + 1)
    }
}

/// The sender's display name: the value of the first `display-name=` tag,
/// or empty when the line carries none.
pub open spec fn spec_display_name(t: Seq<char>) -> Seq<char> {
    match spec_find(t, spec_tag_pat(), 0) {
        None => Seq::empty(),
        Some(d) => t.subrange(d + 13, spec_name_end(t, d + 13)),
    }
}

/// The first `;` or `' '` at or after `from`, or the end of `s`.
fn scan_name_end(s: &str, from: usize) -> (r: usize)
    requires
        from <= s@.len(),
    ensures
        r == spec_name_end(s@, from as int),
        from <= r <= s@.len(),
{
    let n: usize = s.unicode_len();
    let mut i: usize = from;
    while i < n
        invariant
            from <= i <= n,
            n == s@.len(),
            spec_name_end(s@, from as int) == spec_name_end(s@, i as int),
        ensures
            from <= i <= n,
            spec_name_end(s@, from as int) == i as int,
        decreases n - i,
    {
        let c = s.get_char(i);
        if c == ';' || c == ' ' {
            break ;
        }
        i += 1;
    }
    i
}

/// Parses one chat line. Returns the message exactly when the line has the
/// `PRIVMSG ` shape; a line of any other shape is dropped silently.
pub fn parse_twitch_msg(chat_msg: String) -> (r: Option<TwitchChatMsg>)
    ensures
        spec_parse_ok(chat_msg@) <==> r is Some,
        r matches Some(m) ==> {
            &&& m.display_name@ == spec_display_name(chat_msg@)
            &&& m.channel_name@ == spec_channel(chat_msg@)
            &&& m.message@ == spec_message(chat_msg@)
        },
{
    let s = chat_msg.as_str();
    let n: usize = s.unicode_len();
    proof {
        reveal_strlit("PRIVMSG ");
        reveal_strlit(" :");
        reveal_strlit("display-name=");
        assert("PRIVMSG "@ =~= spec_privmsg_pat());
        assert(" :"@ =~= spec_sep_pat());
        assert("display-name="@ =~= spec_tag_pat());
    }
    let p: usize = match find_from(s, "PRIVMSG ", 0) {
        Some(p) => p,
        None => {
            return None;
        },
    };
    proof {
        crate::text::lemma_spec_find_some(s@, spec_privmsg_pat(), 0, p as int);
        assert(p + 8 <= n);
    }
    let cs: usize = p + 8;
    let ce: usize = match find_from(s, " :", cs) {
        Some(e) => e,
        None => {
            return None;
        },
    };
    proof {
        crate::text::lemma_spec_find_some(s@, spec_sep_pat(), cs as int, ce as int);
        assert(ce + 2 <= n);
    }
    let channel_name = substring_owned(s, cs, ce);
    let message = substring_owned(s, ce + 2, n);
    let display_name = match find_from(s, "display-name=", 0) {
        None => String::new(),
        Some(d) => {
            proof {
                crate::text::lemma_spec_find_some(s@, spec_tag_pat(), 0, d as int);
            }
            let ne = scan_name_end(s, d + 13);
            substring_owned(s, d + 13, ne)
        },
    };
    Some(TwitchChatMsg { display_name, channel_name, message })
}

} // verus!
