//! An in-process cache for the state of a chat platform's object graph:
//! guilds, channels, members, roles, emojis, presences, voice connections,
//! users and messages. The cache consumes a stream of incremental update
//! events and keeps a set of cross-referenced indices consistent: per-scope
//! membership sets mirror the primary entity tables, user records are shared
//! across guilds by reference counting, and voice connections are tracked
//! three ways at once (per pair, per channel, per guild).

pub mod builder;
pub mod cache;
pub mod config;
pub mod events;
pub mod guilds;
pub mod ids;
pub mod laws;
pub mod interaction;
pub mod messages;
pub mod model;
pub mod refresh;
pub mod scopes;
pub mod store;
pub mod users;
pub mod voice;

pub use ids::CacheKey;
pub use ids::ChannelId;
pub use ids::EmojiId;
pub use ids::GuildId;
pub use ids::IntegrationId;
pub use ids::IntegrationKey;
pub use ids::InteractionId;
pub use ids::MemberKey;
pub use ids::MessageId;
pub use ids::RoleId;
pub use ids::StageId;
pub use ids::UserId;

pub use builder::InMemoryCacheBuilder;
pub use cache::CacheView;
pub use cache::InMemoryCache;
pub use cache::InMemoryCacheStats;
pub use config::Config;
pub use config::ResourceType;
pub use config::ResourceTypes;
pub use events::Event;
pub use interaction::InteractionType;
pub use interaction::MessageComponent;
pub use interaction::MessageComponentData;
