use voicechat_notice::classify::classify;
use voicechat_notice::clock::Timestamp;
use voicechat_notice::config::Config;
use voicechat_notice::model::{ChannelRef, GuildRef, MembershipTransition, TransitionKind, UserRef};
use voicechat_notice::notify::{notify, notify_at, Action, Event, Notifier, NotifyError, Stage};
use voicechat_notice::payload::OutboundCall;

const GUILD: u64 = 1000;
const LOG_CHANNEL: u64 = 2000;
const GENERAL: ChannelRef = ChannelRef { id: 1 };
const LOUNGE: ChannelRef = ChannelRef { id: 2 };
const NOW: Timestamp = Timestamp { seconds: 1_619_870_400, nanos: 0, offset_seconds: 0 };

fn config() -> Config {
    Config::new("token".to_string(), GUILD, LOG_CHANNEL).ok().expect("valid configuration")
}

fn named(name: &str) -> Option<UserRef> {
    Some(UserRef { id: 42, nickname: None, display_name: Some(name.to_string()), avatar: None })
}

fn transition(
    previous: Option<ChannelRef>,
    current: Option<ChannelRef>,
    actor: Option<UserRef>,
) -> MembershipTransition {
    MembershipTransition {
        previous_channel: previous,
        current_channel: current,
        actor,
        guild: GuildRef { id: GUILD },
    }
}

fn start(transition: MembershipTransition) -> (Notifier, Action) {
    let kind = classify(transition.previous_channel, transition.current_channel);
    notify_at(transition, kind, &config(), NOW)
}

fn dispatched(action: Action) -> OutboundCall {
    match action {
        Action::Dispatch(call) => call,
        other => panic!("expected a message, got {:?}", other),
    }
}

fn every_event() -> Vec<Event> {
    vec![
        Event::ChannelNameResolved(Some("general".to_string())),
        Event::ChannelNameResolved(None),
        Event::Delivered,
        Event::DeliveryFailed("no route".to_string()),
    ]
}

#[test]
fn joining_general_is_announced_with_name_and_channel() {
    let (mut notifier, first) = start(transition(None, Some(GENERAL), named("Alice")));
    assert_eq!(first, Action::ResolveChannelName(GENERAL));
    assert_eq!(notifier.stage(), Stage::Resolving);

    let second = notifier.advance_at(Event::ChannelNameResolved(Some("general".to_string())), NOW);
    assert_eq!(notifier.stage(), Stage::Dispatching);
    let call = dispatched(second);
    assert_eq!(call.channel, ChannelRef { id: LOG_CHANNEL });
    assert_eq!(call.payload.title, "Voice Channel Notice");
    assert_eq!(call.payload.description, "Alice joined VC");
    assert_eq!(call.payload.color.packed(), 0x2AED24);
    let field = call.payload.channel_field();
    assert_eq!(field.name, "Channel");
    assert_eq!(field.value, "general");
    assert_eq!(
        call.payload.timestamp,
        Timestamp { seconds: 1_619_870_400, nanos: 0, offset_seconds: 32_400 }
    );

    assert_eq!(notifier.advance_at(Event::Delivered, NOW), Action::Finish);
    assert!(notifier.is_finished());
}

#[test]
fn leaving_general_is_announced_at_once() {
    let (mut notifier, first) = start(transition(Some(GENERAL), None, named("Bob")));
    assert_eq!(notifier.stage(), Stage::Dispatching);
    let call = dispatched(first);
    assert_eq!(call.channel, ChannelRef { id: LOG_CHANNEL });
    assert_eq!(call.payload.description, "Bob leaved VC");
    assert_eq!(call.payload.color.packed(), 0xED2424);
    assert_eq!(call.payload.channel_label, "Unknown channel");

    assert_eq!(notifier.advance_at(Event::Delivered, NOW), Action::Finish);
    assert_eq!(notifier.stage(), Stage::Finished);
}

#[test]
fn moving_between_channels_is_not_announced() {
    let (mut notifier, first) = start(transition(Some(GENERAL), Some(LOUNGE), named("Carol")));
    assert_eq!(first, Action::Finish);
    assert!(notifier.is_finished());
    for event in every_event() {
        assert_eq!(notifier.advance_at(event, NOW), Action::Finish);
        assert!(notifier.is_finished());
    }
}

#[test]
fn a_failed_lookup_falls_back_to_unknown_channel_and_still_sends() {
    let (mut notifier, first) = start(transition(None, Some(GENERAL), named("Alice")));
    assert_eq!(first, Action::ResolveChannelName(GENERAL));
    let call = dispatched(notifier.advance_at(Event::ChannelNameResolved(None), NOW));
    assert_eq!(call.payload.channel_label, "Unknown channel");
    let field = call.payload.channel_field();
    assert_eq!(field.name, "Channel");
    assert_eq!(field.value, "Unknown channel");
    assert_eq!(call.payload.description, "Alice joined VC");
    assert_eq!(notifier.stage(), Stage::Dispatching);
}

#[test]
fn other_kinds_never_send_whatever_is_reported() {
    for current in [None, Some(GENERAL)] {
        for previous in [None, Some(LOUNGE)] {
            let (mut notifier, first) = notify_at(
                transition(previous, current, named("Dave")),
                TransitionKind::Other,
                &config(),
                NOW,
            );
            assert_eq!(first, Action::Finish);
            for event in every_event() {
                for again in every_event() {
                    assert_eq!(notifier.advance_at(event.clone(), NOW), Action::Finish);
                    assert_eq!(notifier.advance_at(again, NOW), Action::Finish);
                    assert_eq!(notifier.stage(), Stage::Finished);
                }
            }
        }
    }
}

#[test]
fn another_guild_is_ignored_whatever_the_kind() {
    for kind in [TransitionKind::Joined, TransitionKind::Left, TransitionKind::Other] {
        for current in [None, Some(GENERAL)] {
            let mut foreign = transition(None, current, named("Eve"));
            foreign.guild = GuildRef { id: GUILD + 1 };
            let (mut notifier, first) = notify_at(foreign, kind, &config(), NOW);
            assert_eq!(first, Action::Finish);
            assert!(notifier.is_finished());
            for event in every_event() {
                assert_eq!(notifier.advance_at(event, NOW), Action::Finish);
                assert!(notifier.is_finished());
            }
        }
    }
}

#[test]
fn a_join_without_any_channel_is_announced_at_once() {
    let (notifier, first) = start(transition(None, None, None));
    let call = dispatched(first);
    assert_eq!(call.payload.description, "Unknown user joined VC");
    assert_eq!(call.payload.channel_label, "Unknown channel");
    assert_eq!(notifier.stage(), Stage::Dispatching);
}

#[test]
fn a_failed_send_is_reported_and_not_retried() {
    let (mut notifier, first) = start(transition(Some(GENERAL), None, named("Bob")));
    dispatched(first);
    let report = notifier.advance_at(Event::DeliveryFailed("Missing Permissions".to_string()), NOW);
    assert_eq!(
        report,
        Action::Report(NotifyError::DeliveryFailed { reason: "Missing Permissions".to_string() })
    );
    assert!(notifier.is_finished());
    for event in every_event() {
        assert_eq!(notifier.advance_at(event, NOW), Action::Finish);
    }
}

#[test]
fn a_failure_is_reported_in_one_line() {
    let error = NotifyError::DeliveryFailed { reason: "Unknown Channel".to_string() };
    assert_eq!(error.message(), "ERROR: failed to send an message => Unknown Channel");
    let empty = NotifyError::DeliveryFailed { reason: String::new() };
    assert_eq!(empty.message(), "ERROR: failed to send an message => ");
}

#[test]
fn an_event_that_was_not_awaited_ends_the_notification() {
    let (mut notifier, _) = start(transition(None, Some(GENERAL), named("Alice")));
    assert_eq!(notifier.advance_at(Event::Delivered, NOW), Action::Finish);
    assert!(notifier.is_finished());

    let (mut notifier, _) = start(transition(None, Some(GENERAL), named("Alice")));
    assert_eq!(notifier.advance_at(Event::DeliveryFailed("x".to_string()), NOW), Action::Finish);
    assert!(notifier.is_finished());

    let (mut notifier, _) = start(transition(Some(GENERAL), None, named("Bob")));
    assert_eq!(
        notifier.advance_at(Event::ChannelNameResolved(Some("general".to_string())), NOW),
        Action::Finish
    );
    assert!(notifier.is_finished());
}

#[test]
fn no_notification_sends_twice() {
    let (mut notifier, _) = start(transition(None, Some(GENERAL), named("Alice")));
    dispatched(notifier.advance_at(Event::ChannelNameResolved(Some("general".to_string())), NOW));
    for event in every_event() {
        let action = notifier.advance_at(event, NOW);
        assert!(!matches!(action, Action::Dispatch(_)));
    }
}

#[test]
fn the_notifier_remembers_what_it_is_about() {
    let about = transition(None, Some(GENERAL), named("Alice"));
    let (mut notifier, _) = notify_at(about.clone(), TransitionKind::Joined, &config(), NOW);
    assert_eq!(notifier.transition(), &about);
    assert_eq!(notifier.kind(), TransitionKind::Joined);
    notifier.advance_at(Event::ChannelNameResolved(None), NOW);
    assert_eq!(notifier.transition(), &about);
    assert_eq!(notifier.kind(), TransitionKind::Joined);
}

#[test]
fn the_kind_that_is_passed_decides_not_the_channels() {
    // A transition that looks like a move, announced as a leave on request.
    let (mut notifier, first) = notify_at(
        transition(Some(GENERAL), Some(LOUNGE), named("Frank")),
        TransitionKind::Left,
        &config(),
        NOW,
    );
    assert_eq!(first, Action::ResolveChannelName(LOUNGE));
    let call = dispatched(notifier.advance_at(Event::ChannelNameResolved(Some("lounge".to_string())), NOW));
    assert_eq!(call.payload.description, "Frank leaved VC");
    assert_eq!(call.payload.channel_label, "lounge");
}

#[test]
fn messages_are_stamped_with_the_current_time_at_plus_nine() {
    let before = Timestamp::now();
    let (mut notifier, first) =
        notify(transition(Some(GENERAL), None, named("Bob")), TransitionKind::Left, &config());
    let call = dispatched(first);
    assert_eq!(call.payload.timestamp.offset_seconds, 32_400);
    assert!(call.payload.timestamp.seconds >= before.seconds);
    assert_eq!(call.payload.description, "Bob leaved VC");
    assert_eq!(notifier.advance(Event::Delivered), Action::Finish);

    let (mut notifier, first) =
        notify(transition(None, Some(GENERAL), named("Alice")), TransitionKind::Joined, &config());
    assert_eq!(first, Action::ResolveChannelName(GENERAL));
    let call = dispatched(notifier.advance(Event::ChannelNameResolved(Some("general".to_string()))));
    assert_eq!(call.payload.timestamp.offset_seconds, 32_400);
    assert!(call.payload.timestamp.seconds >= before.seconds);
    assert_eq!(call.payload.channel_label, "general");
    assert_eq!(notifier.advance(Event::Delivered), Action::Finish);
    assert!(notifier.is_finished());
}
