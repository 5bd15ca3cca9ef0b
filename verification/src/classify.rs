//! Classification of membership transitions.

use crate::model::{ChannelRef, MembershipTransition, TransitionKind};
use vstd::prelude::*;

verus! {

/// The kind of a transition from `previous` to `current`.
pub open spec fn transition_kind(
    previous: Option<ChannelRef>,
    current: Option<ChannelRef>,
) -> TransitionKind {
    if previous is None {
        TransitionKind::Joined
    } else if current is None {
        TransitionKind::Left
    } else {
        TransitionKind::Other
    }
}

/// Classifies a change of voice-channel membership.
///
/// Without a previous channel the change is a join, whatever the current
/// channel is. With a previous channel and no current one it is a leave.
/// With both it is neither.
pub fn classify(previous: Option<ChannelRef>, current: Option<ChannelRef>) -> (kind:
    TransitionKind)
    ensures
        previous is None ==> kind is Joined,
        previous is Some && current is None ==> kind is Left,
        previous is Some && current is Some ==> kind is Other,
        kind == transition_kind(previous, current),
{
    match previous {
        None => TransitionKind::Joined,
        Some(_) => match current {
            None => TransitionKind::Left,
            Some(_) => TransitionKind::Other,
        },
    }
}

impl MembershipTransition {
    /// The kind of this transition, as [`classify`] computes it.
    pub open spec fn spec_kind(&self) -> TransitionKind {
        transition_kind(self.previous_channel, self.current_channel)
    }

    /// Classifies this transition by its two channels.
    #[verifier::when_used_as_spec(spec_kind)]
    pub fn kind(&self) -> (kind: TransitionKind)
        ensures
            kind == self.spec_kind(),
    {
        classify(self.previous_channel, self.current_channel)
    }
}

} // verus!
