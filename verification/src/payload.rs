//! The notice that announces a join or a leave.

use crate::clock::{Timestamp, NOTICE_OFFSET_SECONDS};
use crate::model::{ChannelId, ChannelRef, MembershipTransition, TransitionKind, UserRef};
use crate::text::{
    as_text, decimal, first_present, first_resolved, push_decimal, text_of, text_view,
};
use vstd::prelude::*;
use vstd::string::*;

verus! {

/// A colour by its red, green and blue parts.
#[derive(Clone, Copy, Debug, PartialEq, Eq, Structural)]
pub struct Rgb {
    pub red: u8,
    pub green: u8,
    pub blue: u8,
}

impl Rgb {
    /// The colour as one number, `0xRRGGBB`.
    pub open spec fn spec_packed(self) -> u32 {
        (self.red * 0x1_0000 + self.green * 0x100 + self.blue) as u32
    }

    /// The colour as one number, `0xRRGGBB`.
    #[verifier::when_used_as_spec(spec_packed)]
    pub fn packed(self) -> (value: u32)
        ensures
            value == self.spec_packed(),
            value == self.red * 0x1_0000 + self.green * 0x100 + self.blue,
    {
        let red: u32 = self.red as u32;
        let green: u32 = self.green as u32;
        let blue: u32 = self.blue as u32;
        red * 0x1_0000 + green * 0x100 + blue
    }
}

/// The notice that is posted for one transition.
#[derive(Clone, Debug, PartialEq, Eq)]
pub struct NotificationPayload {
    pub title: String,
    pub description: String,
    pub color: Rgb,
    pub channel_label: String,
    pub actor_label: String,
    pub avatar_url: Option<String>,
    pub timestamp: Timestamp,
}

/// What a [`NotificationPayload`] holds, as plain mathematical values.
pub struct PayloadView {
    pub title: Seq<char>,
    pub description: Seq<char>,
    pub color: Rgb,
    pub channel_label: Seq<char>,
    pub actor_label: Seq<char>,
    pub avatar_url: Option<Seq<char>>,
    pub timestamp: Timestamp,
}

impl View for NotificationPayload {
    type V = PayloadView;

    open spec fn view(&self) -> PayloadView {
        PayloadView {
            title: self.title@,
            description: self.description@,
            color: self.color,
            channel_label: self.channel_label@,
            actor_label: self.actor_label@,
            avatar_url: match self.avatar_url {
                Some(url) => Some(url@),
                None => None,
            },
            timestamp: self.timestamp,
        }
    }
}

/// The one labelled field of a notice, as it is shown under the description.
#[derive(Clone, Debug, PartialEq, Eq)]
pub struct LabeledField {
    pub name: String,
    pub value: String,
}

/// A message to send: the notice, and the channel it goes to.
#[derive(Clone, Debug, PartialEq, Eq)]
pub struct OutboundCall {
    pub channel: ChannelRef,
    pub payload: NotificationPayload,
}

/// What an [`OutboundCall`] holds, as plain mathematical values.
pub struct OutboundCallView {
    pub channel: ChannelRef,
    pub payload: PayloadView,
}

impl View for OutboundCall {
    type V = OutboundCallView;

    open spec fn view(&self) -> OutboundCallView {
        OutboundCallView { channel: self.channel, payload: self.payload@ }
    }
}

/// The colour of a notice: green for a join, red for a leave, none for
/// anything else.
pub open spec fn notice_color(kind: TransitionKind) -> Option<Rgb> {
    match kind {
        TransitionKind::Joined => Some(Rgb { red: 0x2A, green: 0xED, blue: 0x24 }),
        TransitionKind::Left => Some(Rgb { red: 0xED, green: 0x24, blue: 0x24 }),
        TransitionKind::Other => None,
    }
}

/// What a notice says the actor did; nothing for a transition that is
/// neither a join nor a leave.
pub open spec fn notice_wording(kind: TransitionKind) -> Option<Seq<char>> {
    match kind {
        TransitionKind::Joined => Some(" joined VC"@),
        TransitionKind::Left => Some(" leaved VC"@),
        TransitionKind::Other => None,
    }
}

/// The name a channel is shown under: the name the directory gave, or
/// `"Unknown channel"` when it gave none.
pub open spec fn channel_label(resolved: Option<Seq<char>>) -> Seq<char> {
    match resolved {
        Some(name) => name,
        None => "Unknown channel"@,
    }
}

/// The name an actor is shown under: the guild nickname if there is one,
/// else the global display name, else `"Unknown user"`.
pub open spec fn actor_label(actor: Option<UserRef>) -> Seq<char> {
    match actor {
        Some(user) => match (user.nickname, user.display_name) {
            (Some(nickname), _) => nickname@,
            (None, Some(name)) => name@,
            (None, None) => "Unknown user"@,
        },
        None => "Unknown user"@,
    }
}

/// The address of a user's avatar image:
/// `https://cdn.discordapp.com/avatars/<user id>/<avatar hash>.webp`.
pub open spec fn avatar_address(user_id: nat, avatar: Seq<char>) -> Seq<char> {
    "https://cdn.discordapp.com/avatars/"@ + decimal(user_id) + "/"@ + avatar + ".webp"@
}

/// The thumbnail of a notice: the avatar of the actor, if there is an actor
/// and the actor has one.
pub open spec fn avatar_url(actor: Option<UserRef>) -> Option<Seq<char>> {
    match actor {
        Some(user) => match user.avatar {
            Some(avatar) => Some(avatar_address(user.id as nat, avatar@)),
            None => None,
        },
        None => None,
    }
}

/// The notice for a transition of the given kind, when the directory
/// answered `resolved` for the current channel and the clock read `now`.
/// There is none for a transition that is neither a join nor a leave.
pub open spec fn payload_model(
    transition: MembershipTransition,
    kind: TransitionKind,
    resolved: Option<Seq<char>>,
    now: Timestamp,
) -> Option<PayloadView> {
    if kind is Other {
        None
    } else {
        Some(
            PayloadView {
                title: "Voice Channel Notice"@,
                description: actor_label(transition.actor) + notice_wording(kind)->0,
                color: notice_color(kind)->0,
                channel_label: channel_label(resolved),
                actor_label: actor_label(transition.actor),
                avatar_url: avatar_url(transition.actor),
                timestamp: Timestamp { offset_seconds: NOTICE_OFFSET_SECONDS, ..now },
            },
        )
    }
}

/// The message that announces a transition in the log channel, when the
/// directory answered `resolved` and the clock read `now`. There is none for
/// a transition that is neither a join nor a leave.
pub open spec fn outbound_call_model(
    transition: MembershipTransition,
    kind: TransitionKind,
    log_channel: ChannelId,
    resolved: Option<Seq<char>>,
    now: Timestamp,
) -> Option<OutboundCallView> {
    match payload_model(transition, kind, resolved, now) {
        Some(payload) => Some(
            OutboundCallView { channel: ChannelRef { id: log_channel }, payload },
        ),
        None => None,
    }
}

/// A join is announced as `"<name> joined VC"`, in the colour `0x2AED24`.
pub proof fn law_join_notice(
    transition: MembershipTransition,
    resolved: Option<Seq<char>>,
    now: Timestamp,
)
    ensures
        payload_model(transition, TransitionKind::Joined, resolved, now) is Some,
        payload_model(transition, TransitionKind::Joined, resolved, now)->0.description
            == actor_label(transition.actor) + " joined VC"@,
        payload_model(
            transition,
            TransitionKind::Joined,
            resolved,
            now,
        )->0.color.spec_packed() == 0x2AED24,
{
}

/// A leave is announced as `"<name> leaved VC"`, in the colour `0xED2424`.
pub proof fn law_leave_notice(
    transition: MembershipTransition,
    resolved: Option<Seq<char>>,
    now: Timestamp,
)
    ensures
        payload_model(transition, TransitionKind::Left, resolved, now) is Some,
        payload_model(transition, TransitionKind::Left, resolved, now)->0.description
            == actor_label(transition.actor) + " leaved VC"@,
        payload_model(transition, TransitionKind::Left, resolved, now)->0.color.spec_packed()
            == 0xED2424,
{
}

/// Picks the name a channel is shown under.
pub fn resolve_channel_label(resolved: Option<&str>) -> (label: String)
    ensures
        label@ == channel_label(text_view(resolved)),
{
    let mut candidates: Vec<Option<&str>> = Vec::new();
    candidates.push(resolved);
    proof {
        assert(candidates@.drop_first().len() == 0);
        reveal_with_fuel(first_present, 2);
    }
    first_resolved(&candidates, "Unknown channel")
}

/// Picks the name an actor is shown under.
pub fn resolve_actor_label(actor: &Option<UserRef>) -> (label: String)
    ensures
        label@ == actor_label(*actor),
{
    let mut candidates: Vec<Option<&str>> = Vec::new();
    match actor {
        Some(user) => {
            candidates.push(as_text(&user.nickname));
            candidates.push(as_text(&user.display_name));
            proof {
                assert(candidates@.drop_first().len() == 1);
                assert(candidates@.drop_first()[0] == candidates@[1]);
                assert(candidates@.drop_first().drop_first().len() == 0);
                reveal_with_fuel(first_present, 3);
            }
        },
        None => {},
    }
    first_resolved(&candidates, "Unknown user")
}

/// Builds the address of a user's avatar image from the user's id and the
/// hash of the image.
pub fn avatar_address_of(user_id: u64, avatar: &str) -> (url: String)
    ensures
        url@ == avatar_address(user_id as nat, avatar@),
{
    let mut url = String::from_str("https://cdn.discordapp.com/avatars/");
    push_decimal(&mut url, user_id);
    url.append("/");
    url.append(avatar);
    url.append(".webp");
    url
}

/// Builds the thumbnail address of a notice, if the actor has an avatar.
pub fn avatar_url_of(actor: &Option<UserRef>) -> (url: Option<String>)
    ensures
        text_of(url) == avatar_url(*actor),
{
    match actor {
        Some(user) => match &user.avatar {
            Some(avatar) => Some(avatar_address_of(user.id, avatar.as_str())),
            None => None,
        },
        None => None,
    }
}

impl TransitionKind {
    /// The colour of the notice for a transition of this kind.
    pub fn color(self) -> (color: Option<Rgb>)
        ensures
            color == notice_color(self),
    {
        match self {
            TransitionKind::Joined => Some(Rgb { red: 0x2A, green: 0xED, blue: 0x24 }),
            TransitionKind::Left => Some(Rgb { red: 0xED, green: 0x24, blue: 0x24 }),
            TransitionKind::Other => None,
        }
    }

    /// What the notice for a transition of this kind says the actor did.
    pub fn wording(self) -> (wording: Option<&'static str>)
        ensures
            text_view(wording) == notice_wording(self),
    {
        match self {
            TransitionKind::Joined => Some(" joined VC"),
            TransitionKind::Left => Some(" leaved VC"),
            TransitionKind::Other => None,
        }
    }
}

impl NotificationPayload {
    /// Builds the notice for a transition.
    ///
    /// `resolved` is the directory's answer for the transition's current
    /// channel (`None` when there is no such channel or the lookup failed)
    /// and `now` the current time, at any offset. A transition that is
    /// neither a join nor a leave has no notice.
    pub fn build(
        transition: &MembershipTransition,
        kind: TransitionKind,
        resolved: Option<&str>,
        now: Timestamp,
    ) -> (payload: Option<NotificationPayload>)
        ensures
            payload is None <==> kind is Other,
            match payload {
                Some(p) => Some(p@) == payload_model(*transition, kind, text_view(resolved), now),
                None => payload_model(*transition, kind, text_view(resolved), now) is None,
            },
            kind is Joined ==> payload is Some && payload->0.description@ == actor_label(
                transition.actor,
            ) + " joined VC"@ && payload->0.color.spec_packed() == 0x2AED24,
            kind is Left ==> payload is Some && payload->0.description@ == actor_label(
                transition.actor,
            ) + " leaved VC"@ && payload->0.color.spec_packed() == 0xED2424,
    {
        let color = kind.color();
        let wording = kind.wording();
        match (color, wording) {
            (Some(color), Some(wording)) => {
                let actor_label = resolve_actor_label(&transition.actor);
                let mut description = actor_label.clone();
                description.append(wording);
                Some(
                    NotificationPayload {
                        title: String::from_str("Voice Channel Notice"),
                        description,
                        color,
                        channel_label: resolve_channel_label(resolved),
                        actor_label,
                        avatar_url: avatar_url_of(&transition.actor),
                        timestamp: now.with_offset(NOTICE_OFFSET_SECONDS),
                    },
                )
            },
            _ => None,
        }
    }

    /// The labelled field of the notice: `Channel`, with the channel's name.
    pub fn channel_field(&self) -> (field: LabeledField)
        ensures
            field.name@ == "Channel"@,
            field.value@ == self@.channel_label,
    {
        LabeledField { name: String::from_str("Channel"), value: self.channel_label.clone() }
    }
}

impl OutboundCall {
    /// Builds the message that announces a transition in `log_channel`.
    ///
    /// `resolved` and `now` are as in [`NotificationPayload::build`]. A
    /// transition that is neither a join nor a leave has no message.
    pub fn compose(
        transition: &MembershipTransition,
        kind: TransitionKind,
        log_channel: ChannelId,
        resolved: Option<&str>,
        now: Timestamp,
    ) -> (call: Option<OutboundCall>)
        ensures
            call is None <==> kind is Other,
            match call {
                Some(c) => Some(c@) == outbound_call_model(
                    *transition,
                    kind,
                    log_channel,
                    text_view(resolved),
                    now,
                ),
                None => outbound_call_model(
                    *transition,
                    kind,
                    log_channel,
                    text_view(resolved),
                    now,
                ) is None,
            },
    {
        match NotificationPayload::build(transition, kind, resolved, now) {
            Some(payload) => Some(OutboundCall { channel: ChannelRef { id: log_channel }, payload }),
            None => None,
        }
    }
}

} // verus!
