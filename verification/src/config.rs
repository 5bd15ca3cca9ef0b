//! Start-up configuration and its validation.

use crate::model::{ChannelId, GuildId};
use vstd::prelude::*;
use vstd::string::*;

verus! {

/// Why a set of configuration values was rejected.
#[derive(Clone, Copy, Debug, PartialEq, Eq, Structural)]
pub enum ConfigError {
    /// The credential is the empty string.
    EmptyCredential,
    /// The target guild id is zero.
    ZeroGuild,
    /// The log channel id is zero.
    ZeroLogChannel,
}

/// The first defect of the three configuration values, if they have one.
/// The credential is looked at first, then the guild, then the log channel.
pub open spec fn config_defect(
    credential: Seq<char>,
    target_guild: GuildId,
    log_channel: ChannelId,
) -> Option<ConfigError> {
    if credential.len() == 0 {
        Some(ConfigError::EmptyCredential)
    } else if target_guild == 0 {
        Some(ConfigError::ZeroGuild)
    } else if log_channel == 0 {
        Some(ConfigError::ZeroLogChannel)
    } else {
        None
    }
}

/// The message that describes a configuration error.
pub open spec fn config_error_text(error: ConfigError) -> Seq<char> {
    match error {
        ConfigError::EmptyCredential => "ERROR: `discord_token` in env.json is empty"@,
        ConfigError::ZeroGuild => "ERROR: `guild_id` in env.json is empty"@,
        ConfigError::ZeroLogChannel => "ERROR: `log_channel_id` in env.json is empty"@,
    }
}

impl ConfigError {
    /// A message that names the offending configuration field.
    pub fn message(&self) -> (text: String)
        ensures
            text@ == config_error_text(*self),
    {
        match self {
            ConfigError::EmptyCredential => String::from_str(
                "ERROR: `discord_token` in env.json is empty",
            ),
            ConfigError::ZeroGuild => String::from_str("ERROR: `guild_id` in env.json is empty"),
            ConfigError::ZeroLogChannel => String::from_str(
                "ERROR: `log_channel_id` in env.json is empty",
            ),
        }
    }
}

/// The configuration the notifier runs with. It is built once and never
/// changes. Every value of this type has a non-empty credential, a non-zero
/// target guild and a non-zero log channel. The type cannot be printed, so
/// that the credential does not end up in a log.
pub struct Config {
    credential: String,
    target_guild: GuildId,
    log_channel: ChannelId,
}

impl Config {
    #[verifier::type_invariant]
    spec fn inv(&self) -> bool {
        config_defect(self.credential@, self.target_guild, self.log_channel) is None
    }

    /// The credential presented to the chat platform.
    pub closed spec fn spec_credential(&self) -> Seq<char> {
        self.credential@
    }

    /// The only guild whose transitions are announced.
    pub closed spec fn spec_target_guild(&self) -> GuildId {
        self.target_guild
    }

    /// The channel that notices are posted to.
    pub closed spec fn spec_log_channel(&self) -> ChannelId {
        self.log_channel
    }

    /// Builds a configuration from its three values, or says which of them is
    /// the first to be empty or zero.
    pub fn new(credential: String, target_guild: GuildId, log_channel: ChannelId) -> (result:
        Result<Config, ConfigError>)
        ensures
            match result {
                Ok(config) => {
                    &&& config_defect(credential@, target_guild, log_channel) is None
                    &&& config.spec_credential() == credential@
                    &&& config.spec_target_guild() == target_guild
                    &&& config.spec_log_channel() == log_channel
                },
                Err(error) => config_defect(credential@, target_guild, log_channel) == Some(
                    error,
                ),
            },
    {
        if credential.as_str().is_empty() {
            Err(ConfigError::EmptyCredential)
        } else if target_guild == 0 {
            Err(ConfigError::ZeroGuild)
        } else if log_channel == 0 {
            Err(ConfigError::ZeroLogChannel)
        } else {
            Ok(Config { credential, target_guild, log_channel })
        }
    }

    /// The credential presented to the chat platform. It is never empty.
    pub fn credential(&self) -> (credential: &str)
        ensures
            credential@ == self.spec_credential(),
            credential@.len() > 0,
    {
        proof {
            use_type_invariant(self);
        }
        self.credential.as_str()
    }

    /// The only guild whose transitions are announced. It is never zero.
    #[verifier::when_used_as_spec(spec_target_guild)]
    pub fn target_guild(&self) -> (guild: GuildId)
        ensures
            guild == self.spec_target_guild(),
            guild != 0,
    {
        proof {
            use_type_invariant(self);
        }
        self.target_guild
    }

    /// The channel that notices are posted to. It is never zero.
    #[verifier::when_used_as_spec(spec_log_channel)]
    pub fn log_channel(&self) -> (channel: ChannelId)
        ensures
            channel == self.spec_log_channel(),
            channel != 0,
    {
        proof {
            use_type_invariant(self);
        }
        self.log_channel
    }
}

} // verus!
