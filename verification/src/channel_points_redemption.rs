//! What a channel-points redemption asks for, decided from the decoded
//! inner message of the legacy envelope shape (`Msg`). The suggestion line
//! is stamped with the message's timestamp.

use crate::common_structs::channel_points::Msg;
use crate::notice_view;
use crate::notif;
use crate::text::contains_pat;
use crate::text::spec_contains;
use crate::twitch::topics_bot::channel_point_redemption::spec_suggestion_line;
use crate::twitch::topics_bot::channel_point_redemption::suggestion_line_text;
use crate::twitch::topics_bot::channel_point_redemption::PointsStep;
use vstd::prelude::*;

verus! {

/// Decides what one redemption asks for, by its reward title: `Hydrate!`
/// and `Initiate` titles ask for a notification carrying the reward's
/// prompt, `Suggest Side` asks for a line in the suggestion file, and
/// `Initiate` also spawns the terminal. The caller performs the effects.
pub fn channel_points_redemption(redemption_msg: &Msg) -> (r: PointsStep)
    ensures
        ({
            let title = redemption_msg.data.redemption.reward.title@;
            let prompt = redemption_msg.data.redemption.reward.prompt@;
            let hydrate = spec_contains(title, "Hydrate!"@);
            let initiate = spec_contains(title, "Initiate"@);
            &&& r.spawn_terminal == initiate
            &&& r.notices@.len() == (if hydrate {
                1int
            } else {
                0int
            }) + (if initiate {
                1int
            } else {
                0int
            })
            &&& hydrate ==> notice_view(r.notices@[0]) == (
                title,
                prompt,
                Some("/home/mathias/Pictures/water.jpg"@),
            )
            &&& initiate ==> notice_view(
                r.notices@[if hydrate {
                    1int
                } else {
                    0int
                }],
            ) == (title, prompt, Some("/home/mathias/Pictures/terminal.jpg"@))
            &&& r.suggestion_line matches Some(l) ==> spec_contains(title, "Suggest Side"@)
                && l@ == spec_suggestion_line(
                redemption_msg.data.timestamp@,
                redemption_msg.data.redemption.user.display_name@,
                prompt,
            )
            &&& spec_contains(title, "Suggest Side"@) ==> r.suggestion_line is Some
        }),
{
    let title = &redemption_msg.data.redemption.reward.title;
    let prompt = &redemption_msg.data.redemption.reward.prompt;
    let mut notices: Vec<crate::Notice> = Vec::new();
    if contains_pat(title.as_str(), "Hydrate!") {
        notices.push(
            notif(title.as_str(), prompt.as_str(), Some("/home/mathias/Pictures/water.jpg")),
        );
    }
    let suggestion_line = if contains_pat(title.as_str(), "Suggest Side") {
        Some(
            suggestion_line_text(
                &redemption_msg.data.timestamp,
                &redemption_msg.data.redemption.user.display_name,
                prompt,
            ),
        )
    } else {
        None
    };
    let mut spawn_terminal = false;
    if contains_pat(title.as_str(), "Initiate") {
        notices.push(
            notif(title.as_str(), prompt.as_str(), Some("/home/mathias/Pictures/terminal.jpg")),
        );
        spawn_terminal = true;
    }
    PointsStep { notices, suggestion_line, spawn_terminal }
}

} // verus!
