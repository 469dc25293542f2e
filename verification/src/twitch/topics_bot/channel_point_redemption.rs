//! What a channel-points redemption obliges the process to do, decided
//! from the decoded redemption alone: which notifications to show, what
//! suggestion line to append to the side file, whether to spawn the
//! terminal. The caller performs the effects.

use crate::common_structs::twitch::TopicsResMsg;
use crate::notice_view;
use crate::notif;
use crate::text::contains_pat;
use crate::text::spec_contains;
use crate::Notice;
use vstd::prelude::*;
use vstd::string::StringExecFns;

verus! {

/// The effects one redemption asks for.
pub struct PointsStep {
    pub notices: Vec<Notice>,
    pub suggestion_line: Option<String>,
    pub spawn_terminal: bool,
}

/// The line appended to the suggestion file: `[when] <who>: what`.
pub open spec fn spec_suggestion_line(
    stamp: Seq<char>,
    name: Seq<char>,
    prompt: Seq<char>,
) -> Seq<char> {
    "["@ + stamp + "] <"@ + name + ">: "@ + prompt + "\n"@
}

/// Builds one suggestion line.
pub fn suggestion_line_text(stamp: &String, name: &String, prompt: &String) -> (r: String)
    ensures
        r@ == spec_suggestion_line(stamp@, name@, prompt@),
{
    let mut r = String::from_str("[");
    r.append(stamp.as_str());
    r.append("] <");
    r.append(name.as_str());
    r.append(">: ");
    r.append(prompt.as_str());
    r.append("\n");
    proof {
        assert(r@ =~= spec_suggestion_line(stamp@, name@, prompt@));
    }
    r
}

/// Decides what one redemption asks for, by its reward title: a title
/// carrying `Hydrate!` or `Initiate` asks for a notification with the
/// reward's prompt, `Suggest Side` asks for a line in the suggestion file
/// stamped with the redemption time, and `Initiate` also spawns the
/// terminal.
pub fn points_redeemed(redemption_msg: &TopicsResMsg) -> (r: PointsStep)
    ensures
        ({
            let title = redemption_msg.data.redemption.reward.title@;
            let prompt = redemption_msg.data.redemption.reward.prompt@;
            let hydrate = spec_contains(title, "Hydrate!"@);
            let initiate = spec_contains(title, "Initiate"@);
            &&& r.spawn_terminal == initiate
            &&& r.notices@.len() == (if hydrate {
                1int
            } else {
                0int
            }) + (if initiate {
                1int
            } else {
                0int
            })
            &&& hydrate ==> notice_view(r.notices@[0]) == (
                title,
                prompt,
                Some("/home/mathias/Pictures/water.jpg"@),
            )
            &&& initiate ==> notice_view(
                r.notices@[if hydrate {
                    1int
                } else {
                    0int
                }],
            ) == (title, prompt, Some("/home/mathias/Pictures/terminal.jpg"@))
            &&& r.suggestion_line matches Some(l) ==> spec_contains(title, "Suggest Side"@)
                && l@ == spec_suggestion_line(
                redemption_msg.data.redemption.redeemed_at@,
                redemption_msg.data.redemption.user.display_name@,
                prompt,
            )
            &&& spec_contains(title, "Suggest Side"@) ==> r.suggestion_line is Some
        }),
{
    let title = &redemption_msg.data.redemption.reward.title;
    let prompt = &redemption_msg.data.redemption.reward.prompt;
    let mut notices: Vec<Notice> = Vec::new();
    if contains_pat(title.as_str(), "Hydrate!") {
        notices.push(
            notif(title.as_str(), prompt.as_str(), Some("/home/mathias/Pictures/water.jpg")),
        );
    }
    let suggestion_line = if contains_pat(title.as_str(), "Suggest Side") {
        Some(
            suggestion_line_text(
                &redemption_msg.data.redemption.redeemed_at,
                &redemption_msg.data.redemption.user.display_name,
                prompt,
            ),
        )
    } else {
        None
    };
    let mut spawn_terminal = false;
    if contains_pat(title.as_str(), "Initiate") {
        notices.push(
            notif(title.as_str(), prompt.as_str(), Some("/home/mathias/Pictures/terminal.jpg")),
        );
        spawn_terminal = true;
    }
    PointsStep { notices, suggestion_line, spawn_terminal }
}

} // verus!
