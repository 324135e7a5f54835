//! Identifier types for every entity category the cache stores, together
//! with the equality interface the storage layer needs from a key.

use vstd::prelude::*;

verus! {

/// A key usable by the storage layer: copyable, with an executable equality
/// test that agrees with logical equality.
pub trait CacheKey: Sized + Copy {
    /// Decide whether two keys are the same key.
    fn key_eq(&self, other: &Self) -> (b: bool)
        ensures
            b == (*self == *other),
    ;
}

/// Identifier of a guild.
#[derive(Clone, Copy, PartialEq, Eq, Structural, Hash, Debug)]
pub struct GuildId(pub u64);

/// Identifier of a channel (guild channel, private channel or group).
#[derive(Clone, Copy, PartialEq, Eq, Structural, Hash, Debug)]
pub struct ChannelId(pub u64);

/// Identifier of a custom emoji.
#[derive(Clone, Copy, PartialEq, Eq, Structural, Hash, Debug)]
pub struct EmojiId(pub u64);

/// Identifier of a guild integration.
#[derive(Clone, Copy, PartialEq, Eq, Structural, Hash, Debug)]
pub struct IntegrationId(pub u64);

/// Identifier of an interaction.
#[derive(Clone, Copy, PartialEq, Eq, Structural, Hash, Debug)]
pub struct InteractionId(pub u64);

/// Identifier of a message.
#[derive(Clone, Copy, PartialEq, Eq, Structural, Hash, Debug)]
pub struct MessageId(pub u64);

/// Identifier of a role.
#[derive(Clone, Copy, PartialEq, Eq, Structural, Hash, Debug)]
pub struct RoleId(pub u64);

/// Identifier of a stage instance.
#[derive(Clone, Copy, PartialEq, Eq, Structural, Hash, Debug)]
pub struct StageId(pub u64);

/// Identifier of a user.
#[derive(Clone, Copy, PartialEq, Eq, Structural, Hash, Debug)]
pub struct UserId(pub u64);

/// Composite key of the entities scoped to one user within one guild:
/// members, presences and voice states.
#[derive(Clone, Copy, PartialEq, Eq, Structural, Hash, Debug)]
pub struct MemberKey {
    pub guild_id: GuildId,
    pub user_id: UserId,
}

/// Composite key of a guild integration.
#[derive(Clone, Copy, PartialEq, Eq, Structural, Hash, Debug)]
pub struct IntegrationKey {
    pub guild_id: GuildId,
    pub integration_id: IntegrationId,
}

impl CacheKey for GuildId {
    fn key_eq(&self, other: &Self) -> (b: bool)
        ensures
            b == (*self == *other),
    {
        self.0 == other.0
    }
}

impl CacheKey for ChannelId {
    fn key_eq(&self, other: &Self) -> (b: bool)
        ensures
            b == (*self == *other),
    {
        self.0 == other.0
    }
}

impl CacheKey for EmojiId {
    fn key_eq(&self, other: &Self) -> (b: bool)
        ensures
            b == (*self == *other),
    {
        self.0 == other.0
    }
}

impl CacheKey for IntegrationId {
    fn key_eq(&self, other: &Self) -> (b: bool)
        ensures
            b == (*self == *other),
    {
        self.0 == other.0
    }
}

impl CacheKey for MessageId {
    fn key_eq(&self, other: &Self) -> (b: bool)
        ensures
            b == (*self == *other),
    {
        self.0 == other.0
    }
}

impl CacheKey for RoleId {
    fn key_eq(&self, other: &Self) -> (b: bool)
        ensures
            b == (*self == *other),
    {
        self.0 == other.0
    }
}

impl CacheKey for StageId {
    fn key_eq(&self, other: &Self) -> (b: bool)
        ensures
            b == (*self == *other),
    {
        self.0 == other.0
    }
}

impl CacheKey for UserId {
    fn key_eq(&self, other: &Self) -> (b: bool)
        ensures
            b == (*self == *other),
    {
        self.0 == other.0
    }
}

impl CacheKey for MemberKey {
    fn key_eq(&self, other: &Self) -> (b: bool)
        ensures
            b == (*self == *other),
    {
        self.guild_id.0 == other.guild_id.0 && self.user_id.0 == other.user_id.0
    }
}

impl CacheKey for IntegrationKey {
    fn key_eq(&self, other: &Self) -> (b: bool)
        ensures
            b == (*self == *other),
    {
        self.guild_id.0 == other.guild_id.0 && self.integration_id.0 == other.integration_id.0
    }
}

} // verus!
