//! The notifier: what to do about one transition, step by step.
//!
//! Announcing a transition takes two pieces of outside work, a look-up of
//! the channel's name and the sending of the message. Neither is done here.
//! [`notify`] decides whether the transition is announced at all and returns
//! a [`Notifier`] together with the first [`Action`] for the caller to
//! perform; the caller reports how the action went as an [`Event`] to
//! [`Notifier::advance`], which answers with the next action, until the
//! action is [`Action::Finish`] or [`Action::Report`].

use crate::clock::Timestamp;
use crate::config::Config;
use crate::model::{ChannelId, ChannelRef, GuildId, MembershipTransition, TransitionKind};
use crate::payload::{outbound_call_model, OutboundCall, OutboundCallView};
use crate::text::{as_text, text_of};
use vstd::prelude::*;
use vstd::string::*;

verus! {

/// How far a notification has come.
#[derive(Clone, Copy, Debug, PartialEq, Eq, Structural)]
pub enum Stage {
    /// The channel's name has been asked for; the answer is awaited.
    Resolving,
    /// The message has been handed over for sending; the outcome is awaited.
    Dispatching,
    /// Nothing more will be done for this transition.
    Finished,
}

/// What the caller reports back after performing an [`Action`].
#[derive(Clone, Debug, PartialEq, Eq)]
pub enum Event {
    /// The directory's answer to [`Action::ResolveChannelName`]: the channel's
    /// name, or `None` when the look-up failed.
    ChannelNameResolved(Option<String>),
    /// The message of [`Action::Dispatch`] was sent.
    Delivered,
    /// The message of [`Action::Dispatch`] could not be sent.
    DeliveryFailed(String),
}

/// A failure met while announcing a transition. Failures are reported and
/// never end in a retry.
#[derive(Clone, Debug, PartialEq, Eq)]
pub enum NotifyError {
    /// The message could not be sent.
    DeliveryFailed { reason: String },
}

/// What a [`NotifyError`] holds, as plain mathematical values.
pub enum NotifyErrorView {
    DeliveryFailed { reason: Seq<char> },
}

impl View for NotifyError {
    type V = NotifyErrorView;

    open spec fn view(&self) -> NotifyErrorView {
        match self {
            NotifyError::DeliveryFailed { reason } => NotifyErrorView::DeliveryFailed {
                reason: reason@,
            },
        }
    }
}

/// The line that reports a failure.
pub open spec fn report_text(error: NotifyErrorView) -> Seq<char> {
    match error {
        NotifyErrorView::DeliveryFailed { reason } => "ERROR: failed to send an message => "@
            + reason,
    }
}

impl NotifyError {
    /// The line that reports this failure.
    pub fn message(&self) -> (text: String)
        ensures
            text@ == report_text(self@),
    {
        match self {
            NotifyError::DeliveryFailed { reason } => {
                let mut text = String::from_str("ERROR: failed to send an message => ");
                text.append(reason.as_str());
                text
            },
        }
    }
}

/// What the caller is asked to do next.
#[derive(Clone, Debug, PartialEq, Eq)]
pub enum Action {
    /// Look up the name of this channel and answer with
    /// [`Event::ChannelNameResolved`].
    ResolveChannelName(ChannelRef),
    /// Send this message and answer with [`Event::Delivered`] or
    /// [`Event::DeliveryFailed`].
    Dispatch(OutboundCall),
    /// Report this failure. The notification has ended.
    Report(NotifyError),
    /// Nothing is left to do. The notification has ended.
    Finish,
}

/// What an [`Action`] holds, as plain mathematical values.
pub enum ActionView {
    ResolveChannelName(ChannelRef),
    Dispatch(OutboundCallView),
    Report(NotifyErrorView),
    Finish,
}

impl View for Action {
    type V = ActionView;

    open spec fn view(&self) -> ActionView {
        match self {
            Action::ResolveChannelName(channel) => ActionView::ResolveChannelName(*channel),
            Action::Dispatch(call) => ActionView::Dispatch(call@),
            Action::Report(error) => ActionView::Report(error@),
            Action::Finish => ActionView::Finish,
        }
    }
}

/// A notification in progress: the transition it is about, and how far it
/// has come.
#[derive(Debug)]
pub struct Notifier {
    transition: MembershipTransition,
    kind: TransitionKind,
    log_channel: ChannelId,
    stage: Stage,
}

/// What a [`Notifier`] holds.
pub struct NotifierView {
    pub transition: MembershipTransition,
    pub kind: TransitionKind,
    pub log_channel: ChannelId,
    pub stage: Stage,
}

impl View for Notifier {
    type V = NotifierView;

    closed spec fn view(&self) -> NotifierView {
        NotifierView {
            transition: self.transition,
            kind: self.kind,
            log_channel: self.log_channel,
            stage: self.stage,
        }
    }
}

/// Whether a transition is announced: it is in the target guild, and it is
/// a join or a leave.
pub open spec fn announced(
    transition: MembershipTransition,
    kind: TransitionKind,
    target_guild: GuildId,
) -> bool {
    transition.guild.id == target_guild && !(kind is Other)
}

/// The notification that [`notify`] starts for a transition.
pub open spec fn start_model(
    transition: MembershipTransition,
    kind: TransitionKind,
    target_guild: GuildId,
    log_channel: ChannelId,
) -> NotifierView {
    NotifierView {
        transition,
        kind,
        log_channel,
        stage: if !announced(transition, kind, target_guild) {
            Stage::Finished
        } else if transition.current_channel is Some {
            Stage::Resolving
        } else {
            Stage::Dispatching
        },
    }
}

/// The first action for a transition, when the clock reads `now`.
///
/// A transition that is not announced asks for nothing. Otherwise the name
/// of the current channel is asked for, if there is a current channel; if
/// there is none, the message goes out at once, with the channel unknown.
pub open spec fn start_action(
    transition: MembershipTransition,
    kind: TransitionKind,
    target_guild: GuildId,
    log_channel: ChannelId,
    now: Timestamp,
) -> ActionView {
    if !announced(transition, kind, target_guild) {
        ActionView::Finish
    } else {
        match transition.current_channel {
            Some(channel) => ActionView::ResolveChannelName(channel),
            None => ActionView::Dispatch(
                outbound_call_model(transition, kind, log_channel, None, now)->0,
            ),
        }
    }
}

/// The action that answers `event`, when the clock reads `now`.
///
/// The answer to the look-up is followed by the message, the failure of a
/// send by its report. Everything else ends the notification: a successful
/// send, and any event that the stage was not waiting for.
pub open spec fn next_action(notifier: NotifierView, event: Event, now: Timestamp) -> ActionView {
    match (notifier.stage, event) {
        (Stage::Resolving, Event::ChannelNameResolved(name)) => match outbound_call_model(
            notifier.transition,
            notifier.kind,
            notifier.log_channel,
            text_of(name),
            now,
        ) {
            Some(call) => ActionView::Dispatch(call),
            None => ActionView::Finish,
        },
        (Stage::Dispatching, Event::DeliveryFailed(reason)) => ActionView::Report(
            NotifyErrorView::DeliveryFailed { reason: reason@ },
        ),
        _ => ActionView::Finish,
    }
}

/// The notification after `event`: waiting for the send if the event led to
/// a message, and finished otherwise.
pub open spec fn next_model(notifier: NotifierView, event: Event) -> NotifierView {
    NotifierView {
        stage: match (notifier.stage, event) {
            (Stage::Resolving, Event::ChannelNameResolved(_)) => if notifier.kind is Other {
                Stage::Finished
            } else {
                Stage::Dispatching
            },
            _ => Stage::Finished,
        },
        ..notifier
    }
}

/// Starts the notification for a transition at a given reading of the
/// clock, and says what to do first.
pub fn notify_at(
    transition: MembershipTransition,
    kind: TransitionKind,
    config: &Config,
    now: Timestamp,
) -> (started: (Notifier, Action))
    ensures
        started.0@ == start_model(
            transition,
            kind,
            config.spec_target_guild(),
            config.spec_log_channel(),
        ),
        started.1@ == start_action(
            transition,
            kind,
            config.spec_target_guild(),
            config.spec_log_channel(),
            now,
        ),
        kind is Other ==> started.1 is Finish && started.0@.stage is Finished,
        transition.guild.id != config.spec_target_guild() ==> started.1 is Finish
            && started.0@.stage is Finished,
{
    let log_channel: ChannelId = config.log_channel();
    if transition.guild.id != config.target_guild() {
        return (Notifier { transition, kind, log_channel, stage: Stage::Finished }, Action::Finish);
    }
    match transition.current_channel {
        Some(channel) => match kind {
            TransitionKind::Other => (
                Notifier { transition, kind, log_channel, stage: Stage::Finished },
                Action::Finish,
            ),
            _ => (
                Notifier { transition, kind, log_channel, stage: Stage::Resolving },
                Action::ResolveChannelName(channel),
            ),
        },
        None => match OutboundCall::compose(&transition, kind, log_channel, None, now) {
            Some(call) => (
                Notifier { transition, kind, log_channel, stage: Stage::Dispatching },
                Action::Dispatch(call),
            ),
            None => (
                Notifier { transition, kind, log_channel, stage: Stage::Finished },
                Action::Finish,
            ),
        },
    }
}

/// Starts the notification for a transition, and says what to do first.
///
/// A transition in another guild than the configured one, or one that is
/// neither a join nor a leave, is not announced: the notifier is finished
/// from the start and asks for nothing. A message that goes out at once is
/// stamped with the current time.
pub fn notify(transition: MembershipTransition, kind: TransitionKind, config: &Config) -> (started:
    (Notifier, Action))
    ensures
        started.0@ == start_model(
            transition,
            kind,
            config.spec_target_guild(),
            config.spec_log_channel(),
        ),
        exists|now: Timestamp|
            started.1@ == start_action(
                transition,
                kind,
                config.spec_target_guild(),
                config.spec_log_channel(),
                now,
            ),
        kind is Other ==> started.1 is Finish && started.0@.stage is Finished,
        transition.guild.id != config.spec_target_guild() ==> started.1 is Finish
            && started.0@.stage is Finished,
{
    notify_at(transition, kind, config, Timestamp::now())
}

impl Notifier {
    /// How far the notification has come.
    pub fn stage(&self) -> (stage: Stage)
        ensures
            stage == self@.stage,
    {
        self.stage
    }

    /// Whether nothing more will be done for this transition.
    pub fn is_finished(&self) -> (finished: bool)
        ensures
            finished == (self@.stage is Finished),
    {
        match self.stage {
            Stage::Finished => true,
            _ => false,
        }
    }

    /// The transition that the notification is about.
    pub fn transition(&self) -> (transition: &MembershipTransition)
        ensures
            *transition == self@.transition,
    {
        &self.transition
    }

    /// The kind that the transition was announced as.
    pub fn kind(&self) -> (kind: TransitionKind)
        ensures
            kind == self@.kind,
    {
        self.kind
    }

    /// Takes the report on the last action, at a given reading of the clock,
    /// and says what to do next.
    pub fn advance_at(&mut self, event: Event, now: Timestamp) -> (action: Action)
        ensures
            final(self)@ == next_model(old(self)@, event),
            action@ == next_action(old(self)@, event, now),
            old(self)@.stage is Finished ==> action is Finish && final(self)@ == old(self)@,
    {
        match (self.stage, event) {
            (Stage::Resolving, Event::ChannelNameResolved(name)) => {
                match OutboundCall::compose(
                    &self.transition,
                    self.kind,
                    self.log_channel,
                    as_text(&name),
                    now,
                ) {
                    Some(call) => {
                        self.stage = Stage::Dispatching;
                        Action::Dispatch(call)
                    },
                    None => {
                        self.stage = Stage::Finished;
                        Action::Finish
                    },
                }
            },
            (Stage::Dispatching, Event::DeliveryFailed(reason)) => {
                self.stage = Stage::Finished;
                Action::Report(NotifyError::DeliveryFailed { reason })
            },
            _ => {
                self.stage = Stage::Finished;
                Action::Finish
            },
        }
    }

    /// Takes the report on the last action and says what to do next. A
    /// message that goes out is stamped with the current time.
    ///
    /// Once the notification is finished, every event is answered with
    /// [`Action::Finish`] and changes nothing.
    pub fn advance(&mut self, event: Event) -> (action: Action)
        ensures
            final(self)@ == next_model(old(self)@, event),
            exists|now: Timestamp| action@ == next_action(old(self)@, event, now),
            old(self)@.stage is Finished ==> action is Finish && final(self)@ == old(self)@,
    {
        self.advance_at(event, Timestamp::now())
    }
}

/// The notification that `notifier` has become once the caller has reported
/// `events`, in order.
pub open spec fn run(notifier: NotifierView, events: Seq<Event>) -> NotifierView
    decreases events.len(),
{
    if events.len() == 0 {
        notifier
    } else {
        next_model(run(notifier, events.drop_last()), events.last())
    }
}

/// Reporting one more event is one more step.
proof fn lemma_run_step(notifier: NotifierView, events: Seq<Event>, k: int)
    requires
        0 <= k < events.len(),
    ensures
        run(notifier, events.take(k + 1)) == next_model(run(notifier, events.take(k)), events[k]),
{
    assert(events.take(k + 1).drop_last() == events.take(k));
}

/// A notification never goes back to waiting for a channel's name: once it
/// has left that stage it is waiting for the send, or finished.
proof fn lemma_resolving_is_left_for_good(
    notifier: NotifierView,
    events: Seq<Event>,
    k: int,
    m: int,
)
    requires
        0 <= k <= m <= events.len(),
        !(run(notifier, events.take(k)).stage is Resolving),
    ensures
        !(run(notifier, events.take(m)).stage is Resolving),
    decreases m - k,
{
    if k < m {
        lemma_run_step(notifier, events, k);
        lemma_resolving_is_left_for_good(notifier, events, k + 1, m);
    }
}

/// A finished notification stays finished, whatever is reported to it.
proof fn lemma_finished_stays_finished(notifier: NotifierView, events: Seq<Event>)
    requires
        notifier.stage is Finished,
    ensures
        run(notifier, events) == notifier,
    decreases events.len(),
{
    if events.len() > 0 {
        lemma_finished_stays_finished(notifier, events.drop_last());
    }
}

/// A transition that is neither a join nor a leave never leads to a
/// message: the first action is to finish, and so is the answer to any
/// event after any number of events.
pub proof fn law_other_sends_nothing(
    transition: MembershipTransition,
    target_guild: GuildId,
    log_channel: ChannelId,
    events: Seq<Event>,
    event: Event,
    now: Timestamp,
)
    ensures
        start_action(transition, TransitionKind::Other, target_guild, log_channel, now)
            == ActionView::Finish,
        run(
            start_model(transition, TransitionKind::Other, target_guild, log_channel),
            events,
        ) == start_model(transition, TransitionKind::Other, target_guild, log_channel),
        next_action(
            run(start_model(transition, TransitionKind::Other, target_guild, log_channel), events),
            event,
            now,
        ) == ActionView::Finish,
{
    lemma_finished_stays_finished(
        start_model(transition, TransitionKind::Other, target_guild, log_channel),
        events,
    );
}

/// A transition in another guild than the target guild never leads to a
/// message, whatever its kind: the first action is to finish, and so is the
/// answer to any event after any number of events.
pub proof fn law_foreign_guild_sends_nothing(
    transition: MembershipTransition,
    kind: TransitionKind,
    target_guild: GuildId,
    log_channel: ChannelId,
    events: Seq<Event>,
    event: Event,
    now: Timestamp,
)
    requires
        transition.guild.id != target_guild,
    ensures
        start_action(transition, kind, target_guild, log_channel, now) == ActionView::Finish,
        run(start_model(transition, kind, target_guild, log_channel), events) == start_model(
            transition,
            kind,
            target_guild,
            log_channel,
        ),
        next_action(
            run(start_model(transition, kind, target_guild, log_channel), events),
            event,
            now,
        ) == ActionView::Finish,
{
    lemma_finished_stays_finished(
        start_model(transition, kind, target_guild, log_channel),
        events,
    );
}

/// A message is never sent twice: if the answer to the event at `first` is
/// a message, the answer to no later event is one. In particular a failed
/// send is not tried again.
pub proof fn law_no_second_message(
    notifier: NotifierView,
    events: Seq<Event>,
    first: int,
    later: int,
    now_first: Timestamp,
    now_later: Timestamp,
)
    requires
        0 <= first < later < events.len(),
        next_action(run(notifier, events.take(first)), events[first], now_first) is Dispatch,
    ensures
        !(next_action(run(notifier, events.take(later)), events[later], now_later) is Dispatch),
{
    lemma_run_step(notifier, events, first);
    lemma_resolving_is_left_for_good(notifier, events, first + 1, later);
}

/// When the first action is a message, the answer to no event is another.
pub proof fn law_no_message_after_immediate_one(
    transition: MembershipTransition,
    kind: TransitionKind,
    target_guild: GuildId,
    log_channel: ChannelId,
    events: Seq<Event>,
    later: int,
    now_start: Timestamp,
    now_later: Timestamp,
)
    requires
        0 <= later < events.len(),
        start_action(transition, kind, target_guild, log_channel, now_start) is Dispatch,
    ensures
        !(next_action(
            run(start_model(transition, kind, target_guild, log_channel), events.take(later)),
            events[later],
            now_later,
        ) is Dispatch),
{
    let start = start_model(transition, kind, target_guild, log_channel);
    assert(events.take(0).len() == 0);
    lemma_resolving_is_left_for_good(start, events, 0, later);
}

/// Every notification is finished once two events have been reported.
pub proof fn law_finished_after_two_events(notifier: NotifierView, events: Seq<Event>)
    requires
        events.len() >= 2,
    ensures
        run(notifier, events).stage is Finished,
    decreases events.len(),
{
    let before = events.drop_last();
    if before.len() >= 2 {
        law_finished_after_two_events(notifier, before);
    } else {
        reveal_with_fuel(run, 3);
        assert(before.drop_last().len() == 0);
    }
}

} // verus!
