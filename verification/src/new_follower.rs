//! The welcome notification owed to one new follower, at the crate's top
//! level: the same content as the topic-feed handler builds.

use crate::twitch::topics_bot::follower;
use crate::twitch::topics_bot::follower::spec_follower_summary;
use crate::twitch::topics_bot::follower::NewFollower;
use crate::Notice;
use vstd::prelude::*;

verus! {

/// The welcome notification for one new follower. The caller shows it.
pub fn new_follower(follower_data: &NewFollower) -> (n: Notice)
    ensures
        n.summary@ == spec_follower_summary(follower_data.display_name@),
        n.body@ == "YOU ARE AMAZING! \u{1f970}"@,
        n.image matches Some(i) && i@ == "/home/mathias/Pictures/hackerman.jpg"@,
{
    follower::new_follower(follower_data)
}

} // verus!
