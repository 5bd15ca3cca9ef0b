use voicechat_notice::classify::classify;
use voicechat_notice::model::{ChannelRef, GuildRef, MembershipTransition, TransitionKind};

fn channel(id: u64) -> Option<ChannelRef> {
    Some(ChannelRef { id })
}

#[test]
fn absent_previous_is_a_join_whatever_the_current_channel() {
    assert_eq!(classify(None, None), TransitionKind::Joined);
    assert_eq!(classify(None, channel(1)), TransitionKind::Joined);
    assert_eq!(classify(None, channel(u64::MAX)), TransitionKind::Joined);
}

#[test]
fn present_previous_and_absent_current_is_a_leave() {
    assert_eq!(classify(channel(1), None), TransitionKind::Left);
    assert_eq!(classify(channel(0), None), TransitionKind::Left);
}

#[test]
fn present_previous_and_present_current_is_neither() {
    assert_eq!(classify(channel(1), channel(2)), TransitionKind::Other);
    // The same channel on both sides: a mute toggle, for instance.
    assert_eq!(classify(channel(7), channel(7)), TransitionKind::Other);
}

#[test]
fn a_transition_classifies_itself_by_its_channels() {
    let mut transition = MembershipTransition {
        previous_channel: None,
        current_channel: channel(3),
        actor: None,
        guild: GuildRef { id: 1 },
    };
    assert_eq!(transition.kind(), TransitionKind::Joined);
    transition.previous_channel = channel(3);
    transition.current_channel = None;
    assert_eq!(transition.kind(), TransitionKind::Left);
    transition.current_channel = channel(4);
    assert_eq!(transition.kind(), TransitionKind::Other);
}
