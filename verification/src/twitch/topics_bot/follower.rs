//! What a new follower obliges the process to do: one welcome
//! notification, built from the follower's display name alone.

use crate::notif;
use crate::Notice;
use vstd::prelude::*;
use vstd::string::StringExecFns;

verus! {

/// The decoded payload of a follower event.
pub struct NewFollower {
    pub display_name: String,
    pub username: String,
    pub user_id: String,
}

/// The welcome notification's summary line.
pub open spec fn spec_follower_summary(name: Seq<char>) -> Seq<char> {
    "Tron awaits you, "@ + name + "!"@
}

/// The welcome notification owed to one new follower. The caller shows it.
pub fn new_follower(follower: &NewFollower) -> (n: Notice)
    ensures
        n.summary@ == spec_follower_summary(follower.display_name@),
        n.body@ == "YOU ARE AMAZING! \u{1f970}"@,
        n.image matches Some(i) && i@ == "/home/mathias/Pictures/hackerman.jpg"@,
{
    let mut summary = String::from_str("Tron awaits you, ");
    summary.append(follower.display_name.as_str());
    summary.append("!");
    proof {
        assert(summary@ =~= spec_follower_summary(follower.display_name@));
    }
    notif(
        summary.as_str(),
        "YOU ARE AMAZING! \u{1f970}",
        Some("/home/mathias/Pictures/hackerman.jpg"),
    )
}

} // verus!
