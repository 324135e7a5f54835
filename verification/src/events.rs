//! The update dispatcher: a closed tagged union with one variant per event
//! category, and a single dispatch function translating each inbound event
//! into the corresponding cache mutation. Every mutating category consults
//! the resource gate first; an event of a disabled category, an event the
//! cache has no use for, and an update missing its guild context are all
//! no-ops.

use crate::cache::CacheView;
use crate::cache::InMemoryCache;
use crate::config::ResourceType;
use crate::guilds::spec_cache_guild;
use crate::guilds::wants_resource;
use crate::ids::ChannelId;
use crate::ids::GuildId;
use crate::ids::IntegrationId;
use crate::ids::MessageId;
use crate::ids::RoleId;
use crate::messages::spec_cache_message;
use crate::messages::spec_delete_message;
use crate::model::guild_to_cached;
use crate::model::CachedGuild;
use crate::model::CurrentUser;
use crate::model::Emoji;
use crate::model::Group;
use crate::model::Guild;
use crate::model::GuildChannel;
use crate::model::GuildIntegration;
use crate::model::Member;
use crate::model::Message;
use crate::model::Presence;
use crate::model::PrivateChannel;
use crate::model::Role;
use crate::model::StageInstance;
use crate::model::User;
use crate::model::VoiceState;
use crate::refresh::emoji_views;
use crate::refresh::member_views;
use crate::refresh::spec_cache_emojis;
use crate::refresh::spec_cache_member_seq;
use crate::scopes::spec_cache_guild_channel;
use crate::scopes::spec_cache_integration;
use crate::scopes::spec_cache_presence;
use crate::scopes::spec_cache_role;
use crate::scopes::spec_cache_stage_instance;
use crate::scopes::spec_delete_guild_channel;
use crate::scopes::spec_delete_integration;
use crate::scopes::spec_delete_role;
use crate::scopes::spec_delete_stage_instance;
use crate::users::spec_cache_member;
use crate::users::spec_member_remove;
use crate::voice::spec_cache_voice_state;
use vstd::prelude::*;

verus! {

/// One inbound event from the platform's gateway, one variant per supported
/// category.
pub enum Event {
    ChannelCreate(GuildChannel),
    ChannelDelete(ChannelId),
    ChannelUpdate(GuildChannel),
    GroupCreate(Group),
    GroupDelete(ChannelId),
    GuildCreate(Guild),
    GuildDelete { guild_id: GuildId, unavailable: bool },
    GuildEmojisUpdate { guild_id: GuildId, emojis: Vec<Emoji> },
    GuildUpdate(Guild),
    IntegrationCreate { guild_id: GuildId, integration: GuildIntegration },
    IntegrationDelete { guild_id: GuildId, integration_id: IntegrationId },
    IntegrationUpdate { guild_id: GuildId, integration: GuildIntegration },
    MemberAdd { guild_id: GuildId, member: Member },
    MemberChunk { guild_id: GuildId, members: Vec<Member> },
    MemberRemove { guild_id: GuildId, user: User },
    MemberUpdate { guild_id: GuildId, member: Member },
    MessageCreate(Message),
    MessageDelete { channel_id: ChannelId, message_id: MessageId },
    PresenceUpdate(Presence),
    PrivateChannelCreate(PrivateChannel),
    PrivateChannelDelete(ChannelId),
    Resumed,
    RoleCreate { guild_id: GuildId, role: Role },
    RoleDelete { guild_id: GuildId, role_id: RoleId },
    RoleUpdate { guild_id: GuildId, role: Role },
    StageInstanceCreate(StageInstance),
    StageInstanceDelete(StageInstance),
    StageInstanceUpdate(StageInstance),
    UnavailableGuild { guild_id: GuildId },
    UserUpdate(CurrentUser),
    VoiceStateUpdate(VoiceState),
}

/// What one event leaves in the cache: the corresponding mutation where the
/// event's category is enabled and its scope is known, the state unchanged
/// otherwise.
pub open spec fn spec_update(v: CacheView, e: Event) -> CacheView {
    match e {
        Event::ChannelCreate(c) => if wants_resource(v, ResourceType::Channel) {
            match c.guild_id {
                Some(guild_id) => spec_cache_guild_channel(v, guild_id, c@),
                None => v,
            }
        } else {
            v
        },
        Event::ChannelDelete(channel_id) => if wants_resource(v, ResourceType::Channel) {
            spec_delete_guild_channel(v, channel_id)
        } else {
            v
        },
        Event::ChannelUpdate(c) => if wants_resource(v, ResourceType::Channel) {
            match c.guild_id {
                Some(guild_id) => spec_cache_guild_channel(v, guild_id, c@),
                None => v,
            }
        } else {
            v
        },
        Event::GroupCreate(group) => if wants_resource(v, ResourceType::Channel) {
            CacheView { groups: v.groups.insert(group.id, group@), ..v }
        } else {
            v
        },
        Event::GroupDelete(channel_id) => if wants_resource(v, ResourceType::Channel) {
            CacheView { groups: v.groups.remove(channel_id), ..v }
        } else {
            v
        },
        Event::GuildCreate(guild) => if wants_resource(v, ResourceType::Guild) {
            spec_cache_guild(v, guild@)
        } else {
            v
        },
        Event::GuildDelete { guild_id, unavailable } => if wants_resource(
            v,
            ResourceType::Guild,
        ) {
            if unavailable {
                CacheView {
                    unavailable_guilds: v.unavailable_guilds.insert(guild_id),
                    guilds: v.guilds.remove(guild_id),
                    ..v
                }
            } else {
                CacheView { guilds: v.guilds.remove(guild_id), ..v }
            }
        } else {
            v
        },
        Event::GuildEmojisUpdate { guild_id, emojis } => if wants_resource(
            v,
            ResourceType::Emoji,
        ) {
            spec_cache_emojis(v, guild_id, emoji_views(emojis@))
        } else {
            v
        },
        Event::GuildUpdate(guild) => if wants_resource(v, ResourceType::Guild) {
            CacheView { guilds: v.guilds.insert(guild.id, guild_to_cached(guild@)), ..v }
        } else {
            v
        },
        Event::IntegrationCreate { guild_id, integration } => if wants_resource(
            v,
            ResourceType::Integration,
        ) {
            spec_cache_integration(v, guild_id, integration@)
        } else {
            v
        },
        Event::IntegrationDelete { guild_id, integration_id } => if wants_resource(
            v,
            ResourceType::Integration,
        ) {
            spec_delete_integration(v, guild_id, integration_id)
        } else {
            v
        },
        Event::IntegrationUpdate { guild_id, integration } => if wants_resource(
            v,
            ResourceType::Integration,
        ) {
            spec_cache_integration(v, guild_id, integration@)
        } else {
            v
        },
        Event::MemberAdd { guild_id, member } => if wants_resource(v, ResourceType::Member) {
            spec_cache_member(v, guild_id, member@)
        } else {
            v
        },
        Event::MemberChunk { guild_id, members } => if wants_resource(v, ResourceType::Member) {
            spec_cache_member_seq(v, guild_id, member_views(members@))
        } else {
            v
        },
        Event::MemberRemove { guild_id, user } => if wants_resource(v, ResourceType::Member) {
            spec_member_remove(v, guild_id, user.id)
        } else {
            v
        },
        Event::MemberUpdate { guild_id, member } => if wants_resource(v, ResourceType::Member) {
            spec_cache_member(v, guild_id, member@)
        } else {
            v
        },
        Event::MessageCreate(message) => if wants_resource(v, ResourceType::Message) {
            spec_cache_message(v, message@)
        } else {
            v
        },
        Event::MessageDelete { channel_id, message_id } => if wants_resource(
            v,
            ResourceType::Message,
        ) {
            spec_delete_message(v, channel_id, message_id)
        } else {
            v
        },
        Event::PresenceUpdate(presence) => if wants_resource(v, ResourceType::Presence) {
            spec_cache_presence(v, presence.guild_id, presence@)
        } else {
            v
        },
        Event::PrivateChannelCreate(private_channel) => if wants_resource(
            v,
            ResourceType::Channel,
        ) {
            CacheView {
                channels_private: v.channels_private.insert(private_channel.id, private_channel@),
                ..v
            }
        } else {
            v
        },
        Event::PrivateChannelDelete(channel_id) => if wants_resource(v, ResourceType::Channel) {
            CacheView { channels_private: v.channels_private.remove(channel_id), ..v }
        } else {
            v
        },
        Event::Resumed => v,
        Event::RoleCreate { guild_id, role } => if wants_resource(v, ResourceType::Role) {
            spec_cache_role(v, guild_id, role@)
        } else {
            v
        },
        Event::RoleDelete { guild_id: _, role_id } => if wants_resource(v, ResourceType::Role) {
            spec_delete_role(v, role_id)
        } else {
            v
        },
        Event::RoleUpdate { guild_id, role } => if wants_resource(v, ResourceType::Role) {
            spec_cache_role(v, guild_id, role@)
        } else {
            v
        },
        Event::StageInstanceCreate(stage_instance) => if wants_resource(
            v,
            ResourceType::StageInstance,
        ) {
            spec_cache_stage_instance(v, stage_instance.guild_id, stage_instance@)
        } else {
            v
        },
        Event::StageInstanceDelete(stage_instance) => if wants_resource(
            v,
            ResourceType::StageInstance,
        ) {
            spec_delete_stage_instance(v, stage_instance.id)
        } else {
            v
        },
        Event::StageInstanceUpdate(stage_instance) => if wants_resource(
            v,
            ResourceType::StageInstance,
        ) {
            spec_cache_stage_instance(v, stage_instance.guild_id, stage_instance@)
        } else {
            v
        },
        Event::UnavailableGuild { guild_id } => if wants_resource(v, ResourceType::Guild) {
            CacheView {
                unavailable_guilds: v.unavailable_guilds.insert(guild_id),
                guilds: v.guilds.remove(guild_id),
                ..v
            }
        } else {
            v
        },
        Event::UserUpdate(current_user) => if wants_resource(v, ResourceType::UserCurrent) {
            CacheView { current_user: Some(current_user@), ..v }
        } else {
            v
        },
        Event::VoiceStateUpdate(voice_state) => if wants_resource(v, ResourceType::VoiceState) {
            spec_cache_voice_state(v, voice_state@)
        } else {
            v
        },
    }
}

impl InMemoryCache {
    /// Update the cache with one event from the gateway.
    pub fn update(&mut self, event: Event)
        ensures
            final(self)@ == spec_update(old(self)@, event),
    {
        let ghost ev = event;
        let ghost v0 = self@;
        match event {
            Event::ChannelCreate(c) => {
                if self.wants(ResourceType::Channel) {
                    match c.guild_id {
                        Some(guild_id) => self.cache_guild_channel(guild_id, c),
                        None => {},
                    }
                }
            },
            Event::ChannelDelete(channel_id) => {
                if self.wants(ResourceType::Channel) {
                    self.delete_guild_channel(channel_id);
                }
            },
            Event::ChannelUpdate(c) => {
                if self.wants(ResourceType::Channel) {
                    match c.guild_id {
                        Some(guild_id) => self.cache_guild_channel(guild_id, c),
                        None => {},
                    }
                }
            },
            Event::GroupCreate(group) => {
                if self.wants(ResourceType::Channel) {
                    self.cache_group(group);
                }
            },
            Event::GroupDelete(channel_id) => {
                if self.wants(ResourceType::Channel) {
                    self.delete_group(channel_id);
                }
            },
            Event::GuildCreate(guild) => {
                if self.wants(ResourceType::Guild) {
                    self.cache_guild(guild);
                }
            },
            Event::GuildDelete { guild_id, unavailable } => {
                if self.wants(ResourceType::Guild) {
                    if unavailable {
                        self.unavailable_guild(guild_id);
                    } else {
                        let _removed = self.guilds.remove(&guild_id);
                    }
                }
            },
            Event::GuildEmojisUpdate { guild_id, emojis } => {
                if self.wants(ResourceType::Emoji) {
                    self.cache_emojis(guild_id, emojis);
                }
            },
            Event::GuildUpdate(guild) => {
                if self.wants(ResourceType::Guild) {
                    let ghost gv = guild@;
                    let Guild {
                        id,
                        name,
                        owner_id,
                        afk_timeout,
                        member_count,
                        max_members,
                        max_presences,
                        preferred_locale,
                        unavailable,
                        channels: _,
                        emojis: _,
                        members: _,
                        presences: _,
                        roles: _,
                        stage_instances: _,
                        voice_states: _,
                    } = guild;
                    let cached = CachedGuild {
                        id,
                        name,
                        owner_id,
                        afk_timeout,
                        member_count,
                        max_members,
                        max_presences,
                        preferred_locale,
                        unavailable,
                    };
                    proof {
                        assert(cached@ == guild_to_cached(gv));
                    }
                    self.guilds.insert(id, cached);
                }
            },
            Event::IntegrationCreate { guild_id, integration } => {
                if self.wants(ResourceType::Integration) {
                    self.cache_integration(guild_id, integration);
                }
            },
            Event::IntegrationDelete { guild_id, integration_id } => {
                if self.wants(ResourceType::Integration) {
                    self.delete_integration(guild_id, integration_id);
                }
            },
            Event::IntegrationUpdate { guild_id, integration } => {
                if self.wants(ResourceType::Integration) {
                    self.cache_integration(guild_id, integration);
                }
            },
            Event::MemberAdd { guild_id, member } => {
                if self.wants(ResourceType::Member) {
                    self.cache_member(guild_id, member);
                }
            },
            Event::MemberChunk { guild_id, members } => {
                if self.wants(ResourceType::Member) {
                    self.cache_members(guild_id, members);
                }
            },
            Event::MemberRemove { guild_id, user } => {
                if self.wants(ResourceType::Member) {
                    self.member_remove(guild_id, user.id);
                }
            },
            Event::MemberUpdate { guild_id, member } => {
                if self.wants(ResourceType::Member) {
                    self.cache_member(guild_id, member);
                }
            },
            Event::MessageCreate(message) => {
                if self.wants(ResourceType::Message) {
                    self.cache_message(message);
                }
            },
            Event::MessageDelete { channel_id, message_id } => {
                if self.wants(ResourceType::Message) {
                    self.delete_message(channel_id, message_id);
                }
            },
            Event::PresenceUpdate(presence) => {
                if self.wants(ResourceType::Presence) {
                    let guild_id = presence.guild_id;
                    self.cache_presence(guild_id, presence);
                }
            },
            Event::PrivateChannelCreate(private_channel) => {
                if self.wants(ResourceType::Channel) {
                    self.cache_private_channel(private_channel);
                }
            },
            Event::PrivateChannelDelete(channel_id) => {
                if self.wants(ResourceType::Channel) {
                    let _removed = self.channels_private.remove(&channel_id);
                }
            },
            Event::Resumed => {},
            Event::RoleCreate { guild_id, role } => {
                if self.wants(ResourceType::Role) {
                    self.cache_role(guild_id, role);
                }
            },
            Event::RoleDelete { guild_id: _, role_id } => {
                if self.wants(ResourceType::Role) {
                    self.delete_role(role_id);
                }
            },
            Event::RoleUpdate { guild_id, role } => {
                if self.wants(ResourceType::Role) {
                    self.cache_role(guild_id, role);
                }
            },
            Event::StageInstanceCreate(stage_instance) => {
                if self.wants(ResourceType::StageInstance) {
                    let guild_id = stage_instance.guild_id;
                    self.cache_stage_instance(guild_id, stage_instance);
                }
            },
            Event::StageInstanceDelete(stage_instance) => {
                if self.wants(ResourceType::StageInstance) {
                    self.delete_stage_instance(stage_instance.id);
                }
            },
            Event::StageInstanceUpdate(stage_instance) => {
                if self.wants(ResourceType::StageInstance) {
                    let guild_id = stage_instance.guild_id;
                    self.cache_stage_instance(guild_id, stage_instance);
                }
            },
            Event::UnavailableGuild { guild_id } => {
                if self.wants(ResourceType::Guild) {
                    self.unavailable_guild(guild_id);
                }
            },
            Event::UserUpdate(current_user) => {
                if self.wants(ResourceType::UserCurrent) {
                    self.cache_current_user(current_user);
                }
            },
            Event::VoiceStateUpdate(voice_state) => {
                if self.wants(ResourceType::VoiceState) {
                    self.cache_voice_state(voice_state);
                }
            },
        }
        proof {
            assert(self@ =~= spec_update(v0, ev));
        }
    }
}

} // verus!
