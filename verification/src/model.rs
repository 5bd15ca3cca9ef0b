//! The data that flows through the notifier.

use vstd::prelude::*;

verus! {

/// Identifier of a guild (a server on the chat platform).
pub type GuildId = u64;

/// Identifier of a channel.
pub type ChannelId = u64;

/// Identifier of a user.
pub type UserId = u64;

/// A reference to a guild.
#[derive(Clone, Copy, Debug, PartialEq, Eq, Structural)]
pub struct GuildRef {
    pub id: GuildId,
}

/// A reference to a channel. Its display name is not part of the reference;
/// it is looked up when a notice is built.
#[derive(Clone, Copy, Debug, PartialEq, Eq, Structural)]
pub struct ChannelRef {
    pub id: ChannelId,
}

/// What is known about the user whose membership changed.
#[derive(Clone, Debug, PartialEq, Eq)]
pub struct UserRef {
    pub id: UserId,
    /// The nickname the user carries in the guild, if any.
    pub nickname: Option<String>,
    /// The user's global display name, if known.
    pub display_name: Option<String>,
    /// The hash of the user's avatar image, if the user has one.
    pub avatar: Option<String>,
}

/// A change in a user's voice-channel membership between two observed
/// snapshots.
#[derive(Clone, Debug, PartialEq, Eq)]
pub struct MembershipTransition {
    pub previous_channel: Option<ChannelRef>,
    pub current_channel: Option<ChannelRef>,
    pub actor: Option<UserRef>,
    pub guild: GuildRef,
}

/// What a transition amounts to.
#[derive(Clone, Copy, Debug, PartialEq, Eq, Structural)]
pub enum TransitionKind {
    /// The user was in no voice channel before.
    Joined,
    /// The user was in a voice channel and is in none now.
    Left,
    /// Anything else: a move between channels, a mute toggle.
    Other,
}

} // verus!
