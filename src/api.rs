use vstd::prelude::*;

use crate::auth::MyFirebaseUser;
use crate::games::PlayAction;
use crate::text::str_eq;

verus! {

/// The query of a play request: which action to take.
pub struct PlayParams {
    pub action: String,
}

/// The body of a play request that names a present.
#[derive(Debug, Clone, Copy, PartialEq, Eq, Structural)]
pub struct PlayData {
    pub present_id: i64,
}

/// The caller's identity, when the request carried a valid one.
pub struct MaybeUser(pub Option<MyFirebaseUser>);

/// The action that a request names, if it is one of the six and carries the
/// present that `pick` and `steal` need.
pub open spec fn action_of(name: Seq<char>, data: Option<PlayData>) -> Option<PlayAction> {
    if name == "start"@ {
        Some(PlayAction::Start)
    } else if name == "reset"@ {
        Some(PlayAction::Reset)
    } else if name == "roll"@ {
        Some(PlayAction::Roll)
    } else if name == "pick"@ {
        match data {
            Some(d) => Some(PlayAction::Pick(d.present_id)),
            None => None,
        }
    } else if name == "keep"@ {
        Some(PlayAction::Keep)
    } else if name == "steal"@ {
        match data {
            Some(d) => Some(PlayAction::Steal(d.present_id)),
            None => None,
        }
    } else {
        None
    }
}

/// Reads a play request; `None` means a bad request.
pub fn parse_action(q: &PlayParams, data: Option<PlayData>) -> (r: Option<PlayAction>)
    ensures
        r == action_of(q.action@, data),
{
    let a = q.action.as_str();
    if str_eq(a, "start") {
        Some(PlayAction::Start)
    } else if str_eq(a, "reset") {
        Some(PlayAction::Reset)
    } else if str_eq(a, "roll") {
        Some(PlayAction::Roll)
    } else if str_eq(a, "pick") {
        match data {
            Some(d) => Some(PlayAction::Pick(d.present_id)),
            None => None,
        }
    } else if str_eq(a, "keep") {
        Some(PlayAction::Keep)
    } else if str_eq(a, "steal") {
        match data {
            Some(d) => Some(PlayAction::Steal(d.present_id)),
            None => None,
        }
    } else {
        None
    }
}

} // verus!
