//! The laws the cache keeps. Index/primary coherence: for each guild-scoped
//! category, a key stands in a guild's membership set exactly when the
//! primary table stores that key under that owning guild; an empty cache is
//! coherent and each mutation preserves coherence. Idempotence: applying the
//! same upsert twice leaves every table and index as applying it once.
//! Reference counting: releasing one of several guild references keeps the
//! user with one reference fewer, and releasing the last deletes the record.

use crate::cache::index_set;
use crate::cache::spec_clear;
use crate::cache::voice_states_for_keys;
use crate::model::VoiceState;
use crate::cache::spec_empty_cache;
use crate::cache::CacheView;
use crate::config::Config;
use crate::ids::ChannelId;
use crate::ids::EmojiId;
use crate::ids::GuildId;
use crate::ids::IntegrationId;
use crate::ids::IntegrationKey;
use crate::ids::MemberKey;
use crate::ids::RoleId;
use crate::ids::StageId;
use crate::ids::UserId;
use crate::model::cached_matches_interaction;
use crate::model::cached_matches_member;
use crate::model::cached_matches_partial;
use crate::model::emoji_to_cached;
use crate::model::member_to_cached;
use crate::model::EmojiView;
use crate::model::GuildChannelView;
use crate::model::InteractionMemberView;
use crate::model::MemberView;
use crate::model::PartialMemberView;
use crate::model::PresenceView;
use crate::model::UserEntryView;
use crate::model::UserView;
use crate::model::VoiceStateView;
use crate::config::ResourceType;
use crate::events::spec_update;
use crate::events::Event;
use crate::voice::spec_cache_voice_state;
use crate::voice::spec_cache_voice_state_seq;
use crate::voice::spec_cleanup_old_channel;
use crate::guilds::spec_cache_guild;
use crate::guilds::wants_resource;
use crate::messages::spec_bounded_push;
use crate::model::CachedMessageView;
use crate::model::GuildView;
use crate::refresh::emoji_ids;
use crate::refresh::emoji_views;
use crate::refresh::member_views;
use crate::refresh::spec_cache_emoji;
use crate::refresh::spec_cache_emoji_seq;
use crate::refresh::spec_cache_emojis;
use crate::refresh::spec_cache_guild_channel_seq;
use crate::refresh::spec_cache_member_seq;
use crate::refresh::spec_cache_presence_seq;
use crate::refresh::spec_cache_role_seq;
use crate::refresh::spec_cache_stage_instance_seq;
use crate::refresh::spec_prune_stale_emojis;
use crate::scopes::spec_cache_presence;
use crate::model::GuildIntegrationView;
use crate::model::RoleView;
use crate::model::StageInstanceView;
use crate::scopes::spec_cache_guild_channel;
use crate::scopes::spec_cache_integration;
use crate::scopes::spec_cache_role;
use crate::scopes::spec_cache_stage_instance;
use crate::scopes::spec_delete_guild_channel;
use crate::scopes::spec_delete_integration;
use crate::scopes::spec_delete_role;
use crate::scopes::spec_delete_stage_instance;
use crate::scopes::spec_index_remove_prune;
use crate::scopes::spec_upsert_guild_item;
use crate::users::spec_cache_interaction_member;
use crate::users::spec_cache_member;
use crate::users::spec_cache_partial_member;
use crate::users::spec_cache_user;
use crate::users::spec_member_remove;
use crate::users::spec_remove_guild_reference;
use vstd::prelude::*;

verus! {

/// Roles: a role id stands in a guild's role set exactly when the role table
/// stores it under that owning guild.
pub open spec fn roles_coherent(v: CacheView) -> bool {
    forall|g: GuildId, r: RoleId|
        #[trigger] index_set(v.guild_roles, g).contains(r) <==> (v.roles.contains_key(r)
            && v.roles[r].guild_id == g)
}

/// Guild channels: a channel id stands in a guild's channel set exactly when
/// the channel table stores it under that owning guild.
pub open spec fn channels_coherent(v: CacheView) -> bool {
    forall|g: GuildId, c: ChannelId|
        #[trigger] index_set(v.guild_channels, g).contains(c) <==> (v.channels_guild.contains_key(
            c,
        ) && v.channels_guild[c].guild_id == g)
}

/// Emojis: an emoji id stands in a guild's emoji set exactly when the emoji
/// table stores it under that owning guild.
pub open spec fn emojis_coherent(v: CacheView) -> bool {
    forall|g: GuildId, e: EmojiId|
        #[trigger] index_set(v.guild_emojis, g).contains(e) <==> (v.emojis.contains_key(e)
            && v.emojis[e].guild_id == g)
}

/// Stage instances: a stage id stands in a guild's set exactly when the
/// stage-instance table stores it under that owning guild.
pub open spec fn stage_instances_coherent(v: CacheView) -> bool {
    forall|g: GuildId, s: StageId|
        #[trigger] index_set(v.guild_stage_instances, g).contains(s) <==> (
        v.stage_instances.contains_key(s) && v.stage_instances[s].guild_id == g)
}

/// Integrations: an integration id stands in a guild's set exactly when the
/// integration table stores the pair of that guild and that id.
pub open spec fn integrations_coherent(v: CacheView) -> bool {
    forall|g: GuildId, i: IntegrationId|
        #[trigger] index_set(v.guild_integrations, g).contains(i) <==> v.integrations.contains_key(
            IntegrationKey { guild_id: g, integration_id: i },
        )
}

/// Members: a user id stands in a guild's member set exactly when the member
/// table stores the pair of that guild and that user.
pub open spec fn members_coherent(v: CacheView) -> bool {
    forall|g: GuildId, u: UserId|
        #[trigger] index_set(v.guild_members, g).contains(u) <==> v.members.contains_key(
            MemberKey { guild_id: g, user_id: u },
        )
}

/// Presences: a user id stands in a guild's presence set exactly when the
/// presence table stores the pair of that guild and that user.
pub open spec fn presences_coherent(v: CacheView) -> bool {
    forall|g: GuildId, u: UserId|
        #[trigger] index_set(v.guild_presences, g).contains(u) <==> v.presences.contains_key(
            MemberKey { guild_id: g, user_id: u },
        )
}

/// A cache that holds nothing is coherent in every category.
pub proof fn lemma_empty_cache_coherent(config: Config)
    ensures
        roles_coherent(spec_empty_cache(config)),
        channels_coherent(spec_empty_cache(config)),
        emojis_coherent(spec_empty_cache(config)),
        stage_instances_coherent(spec_empty_cache(config)),
        integrations_coherent(spec_empty_cache(config)),
        members_coherent(spec_empty_cache(config)),
        presences_coherent(spec_empty_cache(config)),
{
}

/// Upserting a role preserves role coherence, as long as the role is not
/// currently stored under a different owning guild.
pub proof fn lemma_cache_role_preserves_coherence(v: CacheView, guild_id: GuildId, role: RoleView)
    requires
        roles_coherent(v),
        v.roles.contains_key(role.id) ==> v.roles[role.id].guild_id == guild_id,
    ensures
        roles_coherent(spec_cache_role(v, guild_id, role)),
{
    let v2 = spec_cache_role(v, guild_id, role);
    assert forall|g: GuildId, r: RoleId| #[trigger]
        index_set(v2.guild_roles, g).contains(r) <==> (v2.roles.contains_key(r)
            && v2.roles[r].guild_id == g) by {
        assert(index_set(v.guild_roles, g).contains(r) <==> (v.roles.contains_key(r)
            && v.roles[r].guild_id == g));
        assert(index_set(v.guild_roles, guild_id).contains(role.id) <==> (v.roles.contains_key(
            role.id,
        ) && v.roles[role.id].guild_id == guild_id));
    }
}

/// Deleting a role preserves role coherence.
pub proof fn lemma_delete_role_preserves_coherence(v: CacheView, role_id: RoleId)
    requires
        roles_coherent(v),
    ensures
        roles_coherent(spec_delete_role(v, role_id)),
{
    let v2 = spec_delete_role(v, role_id);
    assert forall|g: GuildId, r: RoleId| #[trigger]
        index_set(v2.guild_roles, g).contains(r) <==> (v2.roles.contains_key(r)
            && v2.roles[r].guild_id == g) by {
        assert(index_set(v.guild_roles, g).contains(r) <==> (v.roles.contains_key(r)
            && v.roles[r].guild_id == g));
        if v.roles.contains_key(role_id) {
            assert(index_set(v.guild_roles, v.roles[role_id].guild_id).contains(role_id) <==> (
            v.roles.contains_key(role_id) && v.roles[role_id].guild_id
                == v.roles[role_id].guild_id));
        }
    }
}

/// Upserting a guild channel preserves channel coherence, as long as the
/// channel is not currently stored under a different owning guild.
pub proof fn lemma_cache_guild_channel_preserves_coherence(
    v: CacheView,
    guild_id: GuildId,
    c: GuildChannelView,
)
    requires
        channels_coherent(v),
        v.channels_guild.contains_key(c.id) ==> v.channels_guild[c.id].guild_id == guild_id,
    ensures
        channels_coherent(spec_cache_guild_channel(v, guild_id, c)),
{
    let v2 = spec_cache_guild_channel(v, guild_id, c);
    assert forall|g: GuildId, ch: ChannelId| #[trigger]
        index_set(v2.guild_channels, g).contains(ch) <==> (v2.channels_guild.contains_key(ch)
            && v2.channels_guild[ch].guild_id == g) by {
        assert(index_set(v.guild_channels, g).contains(ch) <==> (v.channels_guild.contains_key(ch)
            && v.channels_guild[ch].guild_id == g));
        assert(index_set(v.guild_channels, guild_id).contains(c.id) <==> (
        v.channels_guild.contains_key(c.id) && v.channels_guild[c.id].guild_id == guild_id));
    }
}

/// Deleting a guild channel preserves channel coherence.
pub proof fn lemma_delete_guild_channel_preserves_coherence(v: CacheView, channel_id: ChannelId)
    requires
        channels_coherent(v),
    ensures
        channels_coherent(spec_delete_guild_channel(v, channel_id)),
{
    let v2 = spec_delete_guild_channel(v, channel_id);
    assert forall|g: GuildId, ch: ChannelId| #[trigger]
        index_set(v2.guild_channels, g).contains(ch) <==> (v2.channels_guild.contains_key(ch)
            && v2.channels_guild[ch].guild_id == g) by {
        assert(index_set(v.guild_channels, g).contains(ch) <==> (v.channels_guild.contains_key(ch)
            && v.channels_guild[ch].guild_id == g));
        if v.channels_guild.contains_key(channel_id) {
            assert(index_set(v.guild_channels, v.channels_guild[channel_id].guild_id).contains(
                channel_id,
            ) <==> (v.channels_guild.contains_key(channel_id)
                && v.channels_guild[channel_id].guild_id
                == v.channels_guild[channel_id].guild_id));
        }
    }
}

/// Upserting a stage instance preserves stage coherence, as long as the
/// instance is not currently stored under a different owning guild.
pub proof fn lemma_cache_stage_instance_preserves_coherence(
    v: CacheView,
    guild_id: GuildId,
    s: StageInstanceView,
)
    requires
        stage_instances_coherent(v),
        v.stage_instances.contains_key(s.id) ==> v.stage_instances[s.id].guild_id == guild_id,
    ensures
        stage_instances_coherent(spec_cache_stage_instance(v, guild_id, s)),
{
    let v2 = spec_cache_stage_instance(v, guild_id, s);
    assert forall|g: GuildId, st: StageId| #[trigger]
        index_set(v2.guild_stage_instances, g).contains(st) <==> (v2.stage_instances.contains_key(
            st,
        ) && v2.stage_instances[st].guild_id == g) by {
        assert(index_set(v.guild_stage_instances, g).contains(st) <==> (
        v.stage_instances.contains_key(st) && v.stage_instances[st].guild_id == g));
        assert(index_set(v.guild_stage_instances, guild_id).contains(s.id) <==> (
        v.stage_instances.contains_key(s.id) && v.stage_instances[s.id].guild_id == guild_id));
    }
}

/// Deleting a stage instance preserves stage coherence.
pub proof fn lemma_delete_stage_instance_preserves_coherence(v: CacheView, stage_id: StageId)
    requires
        stage_instances_coherent(v),
    ensures
        stage_instances_coherent(spec_delete_stage_instance(v, stage_id)),
{
    let v2 = spec_delete_stage_instance(v, stage_id);
    assert forall|g: GuildId, st: StageId| #[trigger]
        index_set(v2.guild_stage_instances, g).contains(st) <==> (v2.stage_instances.contains_key(
            st,
        ) && v2.stage_instances[st].guild_id == g) by {
        assert(index_set(v.guild_stage_instances, g).contains(st) <==> (
        v.stage_instances.contains_key(st) && v.stage_instances[st].guild_id == g));
        if v.stage_instances.contains_key(stage_id) {
            assert(index_set(
                v.guild_stage_instances,
                v.stage_instances[stage_id].guild_id,
            ).contains(stage_id) <==> (v.stage_instances.contains_key(stage_id)
                && v.stage_instances[stage_id].guild_id == v.stage_instances[stage_id].guild_id));
        }
    }
}

/// Upserting an integration preserves integration coherence.
pub proof fn lemma_cache_integration_preserves_coherence(
    v: CacheView,
    guild_id: GuildId,
    integration: GuildIntegrationView,
)
    requires
        integrations_coherent(v),
    ensures
        integrations_coherent(spec_cache_integration(v, guild_id, integration)),
{
    let v2 = spec_cache_integration(v, guild_id, integration);
    assert forall|g: GuildId, i: IntegrationId| #[trigger]
        index_set(v2.guild_integrations, g).contains(i) <==> v2.integrations.contains_key(
            IntegrationKey { guild_id: g, integration_id: i },
        ) by {
        assert(index_set(v.guild_integrations, g).contains(i) <==> v.integrations.contains_key(
            IntegrationKey { guild_id: g, integration_id: i },
        ));
        assert(index_set(v.guild_integrations, guild_id).contains(integration.id)
            <==> v.integrations.contains_key(
            IntegrationKey { guild_id, integration_id: integration.id },
        ));
    }
}

/// Deleting an integration preserves integration coherence.
pub proof fn lemma_delete_integration_preserves_coherence(
    v: CacheView,
    guild_id: GuildId,
    integration_id: IntegrationId,
)
    requires
        integrations_coherent(v),
    ensures
        integrations_coherent(spec_delete_integration(v, guild_id, integration_id)),
{
    let v2 = spec_delete_integration(v, guild_id, integration_id);
    assert forall|g: GuildId, i: IntegrationId| #[trigger]
        index_set(v2.guild_integrations, g).contains(i) <==> v2.integrations.contains_key(
            IntegrationKey { guild_id: g, integration_id: i },
        ) by {
        assert(index_set(v.guild_integrations, g).contains(i) <==> v.integrations.contains_key(
            IntegrationKey { guild_id: g, integration_id: i },
        ));
        assert(index_set(v.guild_integrations, guild_id).contains(integration_id)
            <==> v.integrations.contains_key(IntegrationKey { guild_id, integration_id }));
    }
}

/// Caching a user touches no table but the user table.
pub proof fn lemma_cache_user_frame(v: CacheView, u: crate::model::UserView, guild_id: Option<GuildId>)
    ensures
        spec_cache_user(v, u, guild_id) == (CacheView {
            users: spec_cache_user(v, u, guild_id).users,
            ..v
        }),
{
    assert(spec_cache_user(v, u, guild_id) =~= (CacheView {
        users: spec_cache_user(v, u, guild_id).users,
        ..v
    }));
}

/// Upserting a member preserves member coherence.
pub proof fn lemma_cache_member_preserves_coherence(v: CacheView, guild_id: GuildId, m: MemberView)
    requires
        members_coherent(v),
    ensures
        members_coherent(spec_cache_member(v, guild_id, m)),
{
    let v2 = spec_cache_member(v, guild_id, m);
    lemma_cache_user_frame(v, m.user, Some(guild_id));
    assert forall|g: GuildId, u: UserId| #[trigger]
        index_set(v2.guild_members, g).contains(u) <==> v2.members.contains_key(
            MemberKey { guild_id: g, user_id: u },
        ) by {
        assert(index_set(v.guild_members, g).contains(u) <==> v.members.contains_key(
            MemberKey { guild_id: g, user_id: u },
        ));
        assert(index_set(v.guild_members, guild_id).contains(m.user.id) <==> v.members.contains_key(
            MemberKey { guild_id, user_id: m.user.id },
        ));
    }
}

/// Upserting a partial member preserves member coherence.
pub proof fn lemma_cache_partial_member_preserves_coherence(
    v: CacheView,
    guild_id: GuildId,
    m: PartialMemberView,
    user_id: UserId,
)
    requires
        members_coherent(v),
    ensures
        members_coherent(spec_cache_partial_member(v, guild_id, m, user_id)),
{
    let v2 = spec_cache_partial_member(v, guild_id, m, user_id);
    assert forall|g: GuildId, u: UserId| #[trigger]
        index_set(v2.guild_members, g).contains(u) <==> v2.members.contains_key(
            MemberKey { guild_id: g, user_id: u },
        ) by {
        assert(index_set(v.guild_members, g).contains(u) <==> v.members.contains_key(
            MemberKey { guild_id: g, user_id: u },
        ));
        assert(index_set(v.guild_members, guild_id).contains(user_id) <==> v.members.contains_key(
            MemberKey { guild_id, user_id },
        ));
    }
}

/// Upserting an interaction member preserves member coherence.
pub proof fn lemma_cache_interaction_member_preserves_coherence(
    v: CacheView,
    guild_id: GuildId,
    m: InteractionMemberView,
)
    requires
        members_coherent(v),
    ensures
        members_coherent(spec_cache_interaction_member(v, guild_id, m)),
{
    let v2 = spec_cache_interaction_member(v, guild_id, m);
    assert forall|g: GuildId, u: UserId| #[trigger]
        index_set(v2.guild_members, g).contains(u) <==> v2.members.contains_key(
            MemberKey { guild_id: g, user_id: u },
        ) by {
        assert(index_set(v.guild_members, g).contains(u) <==> v.members.contains_key(
            MemberKey { guild_id: g, user_id: u },
        ));
        assert(index_set(v.guild_members, guild_id).contains(m.id) <==> v.members.contains_key(
            MemberKey { guild_id, user_id: m.id },
        ));
    }
}

/// Removing a member preserves member coherence.
pub proof fn lemma_member_remove_preserves_coherence(v: CacheView, guild_id: GuildId, user_id: UserId)
    requires
        members_coherent(v),
    ensures
        members_coherent(spec_member_remove(v, guild_id, user_id)),
{
    let v2 = spec_member_remove(v, guild_id, user_id);
    let v1 = CacheView {
        members: v.members.remove(MemberKey { guild_id, user_id }),
        guild_members: crate::scopes::spec_index_remove(v.guild_members, guild_id, user_id),
        ..v
    };
    assert(v2.members == v1.members);
    assert(v2.guild_members == v1.guild_members);
    assert forall|g: GuildId, u: UserId| #[trigger]
        index_set(v2.guild_members, g).contains(u) <==> v2.members.contains_key(
            MemberKey { guild_id: g, user_id: u },
        ) by {
        assert(index_set(v.guild_members, g).contains(u) <==> v.members.contains_key(
            MemberKey { guild_id: g, user_id: u },
        ));
        assert(index_set(v.guild_members, guild_id).contains(user_id) <==> v.members.contains_key(
            MemberKey { guild_id, user_id },
        ));
    }
}

/// Upserting a presence preserves presence coherence.
pub proof fn lemma_cache_presence_preserves_coherence(v: CacheView, guild_id: GuildId, p: PresenceView)
    requires
        presences_coherent(v),
    ensures
        presences_coherent(spec_cache_presence(v, guild_id, p)),
{
    let v2 = spec_cache_presence(v, guild_id, p);
    assert forall|g: GuildId, u: UserId| #[trigger]
        index_set(v2.guild_presences, g).contains(u) <==> v2.presences.contains_key(
            MemberKey { guild_id: g, user_id: u },
        ) by {
        assert(index_set(v.guild_presences, g).contains(u) <==> v.presences.contains_key(
            MemberKey { guild_id: g, user_id: u },
        ));
        assert(index_set(v.guild_presences, guild_id).contains(
            crate::model::spec_presence_user_id(p.user),
        ) <==> v.presences.contains_key(
            MemberKey { guild_id, user_id: crate::model::spec_presence_user_id(p.user) },
        ));
    }
}

/// Upserting one emoji preserves emoji coherence, as long as the emoji is
/// not currently stored under a different owning guild.
pub proof fn lemma_cache_emoji_preserves_coherence(v: CacheView, guild_id: GuildId, e: EmojiView)
    requires
        emojis_coherent(v),
        v.emojis.contains_key(e.id) ==> v.emojis[e.id].guild_id == guild_id,
    ensures
        emojis_coherent(spec_cache_emoji(v, guild_id, e)),
{
    let v2 = spec_cache_emoji(v, guild_id, e);
    if !(v.emojis.contains_key(e.id) && v.emojis[e.id].data == emoji_to_cached(e)) {
        match e.user {
            Some(u) => {
                lemma_cache_user_frame(v, u, Some(guild_id));
            },
            None => {},
        }
    }
    assert forall|g: GuildId, x: EmojiId| #[trigger]
        index_set(v2.guild_emojis, g).contains(x) <==> (v2.emojis.contains_key(x)
            && v2.emojis[x].guild_id == g) by {
        assert(index_set(v.guild_emojis, g).contains(x) <==> (v.emojis.contains_key(x)
            && v.emojis[x].guild_id == g));
        assert(index_set(v.guild_emojis, guild_id).contains(e.id) <==> (v.emojis.contains_key(e.id)
            && v.emojis[e.id].guild_id == guild_id));
    }
}

/// Removing the stale emojis of a guild preserves emoji coherence.
pub proof fn lemma_prune_stale_emojis_preserves_coherence(
    v: CacheView,
    guild_id: GuildId,
    incoming: Set<EmojiId>,
)
    requires
        emojis_coherent(v),
    ensures
        emojis_coherent(spec_prune_stale_emojis(v, guild_id, incoming)),
{
    let v2 = spec_prune_stale_emojis(v, guild_id, incoming);
    assert forall|g: GuildId, x: EmojiId| #[trigger]
        index_set(v2.guild_emojis, g).contains(x) <==> (v2.emojis.contains_key(x)
            && v2.emojis[x].guild_id == g) by {
        assert(index_set(v.guild_emojis, g).contains(x) <==> (v.emojis.contains_key(x)
            && v.emojis[x].guild_id == g));
        assert(index_set(v.guild_emojis, guild_id).contains(x) <==> (v.emojis.contains_key(x)
            && v.emojis[x].guild_id == guild_id));
    }
}

/// Upserting a sequence of emojis preserves emoji coherence, as long as none
/// of them is currently stored under a different owning guild.
pub proof fn lemma_cache_emoji_seq_preserves_coherence(
    v: CacheView,
    guild_id: GuildId,
    es: Seq<EmojiView>,
)
    requires
        emojis_coherent(v),
        forall|i: int|
            0 <= i < es.len() ==> (v.emojis.contains_key(#[trigger] es[i].id)
                ==> v.emojis[es[i].id].guild_id == guild_id),
    ensures
        emojis_coherent(spec_cache_emoji_seq(v, guild_id, es)),
    decreases es.len(),
{
    if es.len() > 0 {
        let e0 = es.first();
        let v1 = spec_cache_emoji(v, guild_id, e0);
        assert(v.emojis.contains_key(es[0].id) ==> v.emojis[es[0].id].guild_id == guild_id);
        lemma_cache_emoji_preserves_coherence(v, guild_id, e0);
        if !(v.emojis.contains_key(e0.id) && v.emojis[e0.id].data == emoji_to_cached(e0)) {
            match e0.user {
                Some(u) => {
                    lemma_cache_user_frame(v, u, Some(guild_id));
                },
                None => {},
            }
        }
        assert forall|i: int|
            0 <= i < es.drop_first().len() implies (v1.emojis.contains_key(
            #[trigger] es.drop_first()[i].id,
        ) ==> v1.emojis[es.drop_first()[i].id].guild_id == guild_id) by {
            assert(es.drop_first()[i] == es[i + 1]);
            assert(v.emojis.contains_key(es[i + 1].id) ==> v.emojis[es[i + 1].id].guild_id
                == guild_id);
        }
        lemma_cache_emoji_seq_preserves_coherence(v1, guild_id, es.drop_first());
    }
}

/// An authoritative emoji refresh preserves emoji coherence, as long as none
/// of the incoming emojis is currently stored under a different owning
/// guild.
pub proof fn lemma_cache_emojis_preserves_coherence(
    v: CacheView,
    guild_id: GuildId,
    es: Seq<EmojiView>,
)
    requires
        emojis_coherent(v),
        forall|i: int|
            0 <= i < es.len() ==> (v.emojis.contains_key(#[trigger] es[i].id)
                ==> v.emojis[es[i].id].guild_id == guild_id),
    ensures
        emojis_coherent(spec_cache_emojis(v, guild_id, es)),
{
    let incoming = emoji_ids(es).to_set();
    let v1 = spec_prune_stale_emojis(v, guild_id, incoming);
    lemma_prune_stale_emojis_preserves_coherence(v, guild_id, incoming);
    assert forall|i: int|
        0 <= i < es.len() implies (v1.emojis.contains_key(#[trigger] es[i].id)
        ==> v1.emojis[es[i].id].guild_id == guild_id) by {
        assert(v.emojis.contains_key(es[i].id) ==> v.emojis[es[i].id].guild_id == guild_id);
    }
    lemma_cache_emoji_seq_preserves_coherence(v1, guild_id, es);
}

/// After an authoritative emoji refresh for a guild with coherent tables,
/// the guild's emoji set is exactly the incoming key set.
pub proof fn lemma_cache_emojis_exact(v: CacheView, guild_id: GuildId, es: Seq<EmojiView>)
    requires
        emojis_coherent(v),
        forall|i: int|
            0 <= i < es.len() ==> (v.emojis.contains_key(#[trigger] es[i].id)
                ==> v.emojis[es[i].id].guild_id == guild_id),
    ensures
        index_set(spec_cache_emojis(v, guild_id, es).guild_emojis, guild_id) == emoji_ids(
            es,
        ).to_set(),
{
    let incoming = emoji_ids(es).to_set();
    let v1 = spec_prune_stale_emojis(v, guild_id, incoming);
    lemma_prune_stale_emojis_preserves_coherence(v, guild_id, incoming);
    assert(index_set(v1.guild_emojis, guild_id).subset_of(incoming));
    assert forall|i: int|
        0 <= i < es.len() implies ((v1.emojis.contains_key(#[trigger] es[i].id)
        && v1.emojis[es[i].id].data == emoji_to_cached(es[i])) ==> index_set(
        v1.guild_emojis,
        guild_id,
    ).contains(es[i].id)) by {
        if v1.emojis.contains_key(es[i].id) {
            assert(v.emojis.contains_key(es[i].id));
            assert(v.emojis[es[i].id].guild_id == guild_id);
            assert(index_set(v.guild_emojis, guild_id).contains(es[i].id));
            assert(emoji_ids(es)[i] == es[i].id);
            assert(incoming.contains(es[i].id));
        }
    }
    lemma_cache_emoji_seq_grows_index(v1, guild_id, es);
    assert(index_set(spec_cache_emoji_seq(v1, guild_id, es).guild_emojis, guild_id)
        =~= index_set(v1.guild_emojis, guild_id).union(emoji_ids(es).to_set()));
    assert(index_set(v1.guild_emojis, guild_id).union(incoming) =~= incoming);
}

/// Upserting a sequence of emojis leaves the guild's emoji set as its old
/// value united with the incoming ids, as long as every skipped emoji (one
/// whose stored projection already agrees) is already in the set.
pub proof fn lemma_cache_emoji_seq_grows_index(v: CacheView, guild_id: GuildId, es: Seq<EmojiView>)
    requires
        forall|i: int|
            0 <= i < es.len() ==> ((v.emojis.contains_key(#[trigger] es[i].id)
                && v.emojis[es[i].id].data == emoji_to_cached(es[i])) ==> index_set(
                v.guild_emojis,
                guild_id,
            ).contains(es[i].id)),
    ensures
        index_set(spec_cache_emoji_seq(v, guild_id, es).guild_emojis, guild_id) =~= index_set(
            v.guild_emojis,
            guild_id,
        ).union(emoji_ids(es).to_set()),
    decreases es.len(),
{
    if es.len() == 0 {
        assert(emoji_ids(es).to_set() =~= Set::<EmojiId>::empty());
        assert(index_set(v.guild_emojis, guild_id).union(Set::empty()) =~= index_set(
            v.guild_emojis,
            guild_id,
        ));
    } else {
        let e0 = es.first();
        let v1 = spec_cache_emoji(v, guild_id, e0);
        assert(v.emojis.contains_key(es[0].id) && v.emojis[es[0].id].data == emoji_to_cached(es[0])
            ==> index_set(v.guild_emojis, guild_id).contains(es[0].id));
        if !(v.emojis.contains_key(e0.id) && v.emojis[e0.id].data == emoji_to_cached(e0)) {
            match e0.user {
                Some(u) => {
                    lemma_cache_user_frame(v, u, Some(guild_id));
                },
                None => {},
            }
        }
        assert(index_set(v1.guild_emojis, guild_id) =~= index_set(v.guild_emojis, guild_id).insert(
            e0.id,
        ) || index_set(v1.guild_emojis, guild_id) =~= index_set(v.guild_emojis, guild_id));
        assert forall|i: int|
            0 <= i < es.drop_first().len() implies ((v1.emojis.contains_key(
            #[trigger] es.drop_first()[i].id,
        ) && v1.emojis[es.drop_first()[i].id].data == emoji_to_cached(es.drop_first()[i]))
            ==> index_set(v1.guild_emojis, guild_id).contains(es.drop_first()[i].id)) by {
            assert(es.drop_first()[i] == es[i + 1]);
            assert((v.emojis.contains_key(es[i + 1].id) && v.emojis[es[i + 1].id].data
                == emoji_to_cached(es[i + 1])) ==> index_set(v.guild_emojis, guild_id).contains(
                es[i + 1].id,
            ));
        }
        lemma_cache_emoji_seq_grows_index(v1, guild_id, es.drop_first());
        assert(emoji_ids(es).to_set() =~= emoji_ids(es.drop_first()).to_set().insert(e0.id)) by {
            assert(emoji_ids(es)[0] == e0.id);
            assert forall|x: EmojiId|
                emoji_ids(es).to_set().contains(x) implies emoji_ids(
                es.drop_first(),
            ).to_set().contains(x) || x == e0.id by {
                let i = choose|i: int| 0 <= i < emoji_ids(es).len() && emoji_ids(es)[i] == x;
                if i > 0 {
                    assert(emoji_ids(es.drop_first())[i - 1] == x);
                }
            }
            assert forall|x: EmojiId|
                emoji_ids(es.drop_first()).to_set().contains(x) implies emoji_ids(
                es,
            ).to_set().contains(x) by {
                let i = choose|i: int|
                    0 <= i < emoji_ids(es.drop_first()).len() && emoji_ids(es.drop_first())[i] == x;
                assert(emoji_ids(es)[i + 1] == x);
            }
        }
        assert(index_set(spec_cache_emoji_seq(v, guild_id, es).guild_emojis, guild_id)
            =~= index_set(v.guild_emojis, guild_id).union(emoji_ids(es).to_set()));
    }
}

/// Inserting a key into a scope's membership set twice is the same as
/// inserting it once.
pub proof fn lemma_index_insert_idempotent<S, K>(m: Map<S, Set<K>>, scope: S, key: K)
    ensures
        ({
            let m1 = m.insert(scope, index_set(m, scope).insert(key));
            m1.insert(scope, index_set(m1, scope).insert(key)) == m1
        }),
{
    let m1 = m.insert(scope, index_set(m, scope).insert(key));
    assert(index_set(m1, scope).insert(key) =~= index_set(m, scope).insert(key));
    assert(m1.insert(scope, index_set(m1, scope).insert(key)) =~= m1);
}

/// The change-aware upsert of a guild-owned entity is idempotent.
pub proof fn lemma_upsert_guild_item_idempotent<K, V>(
    m: Map<K, crate::model::GuildItemView<V>>,
    guild_id: GuildId,
    key: K,
    data: V,
)
    ensures
        spec_upsert_guild_item(
            spec_upsert_guild_item(m, guild_id, key, data),
            guild_id,
            key,
            data,
        ) == spec_upsert_guild_item(m, guild_id, key, data),
{
    let m1 = spec_upsert_guild_item(m, guild_id, key, data);
    assert(m1.contains_key(key) && m1[key].data == data);
}

/// Caching the same role twice leaves every table as caching it once.
pub proof fn lemma_cache_role_idempotent(v: CacheView, guild_id: GuildId, role: RoleView)
    ensures
        spec_cache_role(spec_cache_role(v, guild_id, role), guild_id, role) == spec_cache_role(
            v,
            guild_id,
            role,
        ),
{
    let v1 = spec_cache_role(v, guild_id, role);
    lemma_index_insert_idempotent(v.guild_roles, guild_id, role.id);
    lemma_upsert_guild_item_idempotent(v.roles, guild_id, role.id, role);
    assert(spec_cache_role(v1, guild_id, role) =~= v1);
}

/// Caching the same guild channel twice leaves every table as caching it
/// once.
pub proof fn lemma_cache_guild_channel_idempotent(v: CacheView, guild_id: GuildId, c: GuildChannelView)
    ensures
        spec_cache_guild_channel(spec_cache_guild_channel(v, guild_id, c), guild_id, c)
            == spec_cache_guild_channel(v, guild_id, c),
{
    let v1 = spec_cache_guild_channel(v, guild_id, c);
    lemma_index_insert_idempotent(v.guild_channels, guild_id, c.id);
    lemma_upsert_guild_item_idempotent(
        v.channels_guild,
        guild_id,
        c.id,
        crate::scopes::channel_with_guild(c, guild_id),
    );
    assert(spec_cache_guild_channel(v1, guild_id, c) =~= v1);
}

/// Caching the same stage instance twice leaves every table as caching it
/// once.
pub proof fn lemma_cache_stage_instance_idempotent(
    v: CacheView,
    guild_id: GuildId,
    stage: StageInstanceView,
)
    ensures
        spec_cache_stage_instance(spec_cache_stage_instance(v, guild_id, stage), guild_id, stage)
            == spec_cache_stage_instance(v, guild_id, stage),
{
    let v1 = spec_cache_stage_instance(v, guild_id, stage);
    lemma_index_insert_idempotent(v.guild_stage_instances, guild_id, stage.id);
    lemma_upsert_guild_item_idempotent(v.stage_instances, guild_id, stage.id, stage);
    assert(spec_cache_stage_instance(v1, guild_id, stage) =~= v1);
}

/// Caching the same integration twice leaves every table as caching it once.
pub proof fn lemma_cache_integration_idempotent(
    v: CacheView,
    guild_id: GuildId,
    integration: GuildIntegrationView,
)
    ensures
        spec_cache_integration(spec_cache_integration(v, guild_id, integration), guild_id, integration)
            == spec_cache_integration(v, guild_id, integration),
{
    let v1 = spec_cache_integration(v, guild_id, integration);
    lemma_index_insert_idempotent(v.guild_integrations, guild_id, integration.id);
    lemma_upsert_guild_item_idempotent(
        v.integrations,
        guild_id,
        IntegrationKey { guild_id, integration_id: integration.id },
        integration,
    );
    assert(spec_cache_integration(v1, guild_id, integration) =~= v1);
}

/// Caching the same presence twice leaves every table as caching it once.
pub proof fn lemma_cache_presence_idempotent(v: CacheView, guild_id: GuildId, p: PresenceView)
    ensures
        spec_cache_presence(spec_cache_presence(v, guild_id, p), guild_id, p) == spec_cache_presence(
            v,
            guild_id,
            p,
        ),
{
    let v1 = spec_cache_presence(v, guild_id, p);
    lemma_index_insert_idempotent(
        v.guild_presences,
        guild_id,
        crate::model::spec_presence_user_id(p.user),
    );
    assert(spec_cache_presence(v1, guild_id, p) =~= v1);
}

/// A plain upsert (a group, a private channel, a presence record or the
/// current-user slot) is idempotent: storing the same value twice under the
/// same key leaves the table as storing it once.
pub proof fn lemma_plain_upsert_idempotent<K, V>(m: Map<K, V>, k: K, x: V)
    ensures
        m.insert(k, x).insert(k, x) == m.insert(k, x),
{
    assert(m.insert(k, x).insert(k, x) =~= m.insert(k, x));
}

/// Caching the same user under the same guild context twice leaves the user
/// table as caching it once.
pub proof fn lemma_cache_user_idempotent(v: CacheView, u: UserView, guild_id: Option<GuildId>)
    ensures
        spec_cache_user(spec_cache_user(v, u, guild_id), u, guild_id) == spec_cache_user(
            v,
            u,
            guild_id,
        ),
{
    let v1 = spec_cache_user(v, u, guild_id);
    match guild_id {
        None => {},
        Some(g) => {
            assert(v1.users.contains_key(u.id) && v1.users[u.id].user == u);
            assert(v1.users[u.id].guilds.contains(g));
            assert(v1.users[u.id].guilds.insert(g) =~= v1.users[u.id].guilds);
            assert(UserEntryView {
                user: v1.users[u.id].user,
                guilds: v1.users[u.id].guilds.insert(g),
            } == v1.users[u.id]);
            assert(v1.users.insert(u.id, v1.users[u.id]) =~= v1.users);
            assert(spec_cache_user(v1, u, guild_id) =~= v1);
        },
    }
}

/// Caching the same member twice leaves every table as caching it once.
pub proof fn lemma_cache_member_idempotent(v: CacheView, guild_id: GuildId, m: MemberView)
    ensures
        spec_cache_member(spec_cache_member(v, guild_id, m), guild_id, m) == spec_cache_member(
            v,
            guild_id,
            m,
        ),
{
    let key = MemberKey { guild_id, user_id: m.user.id };
    let v1 = spec_cache_member(v, guild_id, m);
    assert(cached_matches_member(member_to_cached(guild_id, m), m));
    assert(v1.members.contains_key(key) && cached_matches_member(v1.members[key], m));
}

/// Caching the same partial member twice leaves every table as caching it
/// once.
pub proof fn lemma_cache_partial_member_idempotent(
    v: CacheView,
    guild_id: GuildId,
    m: PartialMemberView,
    user_id: UserId,
)
    ensures
        spec_cache_partial_member(
            spec_cache_partial_member(v, guild_id, m, user_id),
            guild_id,
            m,
            user_id,
        ) == spec_cache_partial_member(v, guild_id, m, user_id),
{
    let key = MemberKey { guild_id, user_id };
    let v1 = spec_cache_partial_member(v, guild_id, m, user_id);
    assert(cached_matches_partial(crate::users::partial_to_cached(guild_id, user_id, m), m));
    assert(v1.members.contains_key(key) && cached_matches_partial(v1.members[key], m));
}

/// Caching the same interaction member twice leaves every table as caching
/// it once.
pub proof fn lemma_cache_interaction_member_idempotent(
    v: CacheView,
    guild_id: GuildId,
    m: InteractionMemberView,
)
    ensures
        spec_cache_interaction_member(spec_cache_interaction_member(v, guild_id, m), guild_id, m)
            == spec_cache_interaction_member(v, guild_id, m),
{
    let key = MemberKey { guild_id, user_id: m.id };
    let v1 = spec_cache_interaction_member(v, guild_id, m);
    assert(v1.members.contains_key(key) && cached_matches_interaction(v1.members[key], m));
}

/// Caching the same emoji twice leaves every table as caching it once.
pub proof fn lemma_cache_emoji_idempotent(v: CacheView, guild_id: GuildId, e: EmojiView)
    ensures
        spec_cache_emoji(spec_cache_emoji(v, guild_id, e), guild_id, e) == spec_cache_emoji(
            v,
            guild_id,
            e,
        ),
{
    let v1 = spec_cache_emoji(v, guild_id, e);
    assert(v1.emojis.contains_key(e.id) && v1.emojis[e.id].data == emoji_to_cached(e));
}

/// Applying the same voice-state update twice leaves every table as applying
/// it once.
pub proof fn lemma_cache_voice_state_idempotent(v: CacheView, vs: VoiceStateView)
    ensures
        spec_cache_voice_state(spec_cache_voice_state(v, vs), vs) == spec_cache_voice_state(v, vs),
{
    match vs.guild_id {
        None => {},
        Some(guild_id) => {
            let key = MemberKey { guild_id, user_id: vs.user_id };
            let v1 = spec_cache_voice_state(v, vs);
            let w = spec_cleanup_old_channel(v, key);
            match vs.channel_id {
                None => {
                    assert(!v1.voice_states.contains_key(key));
                    assert(spec_cleanup_old_channel(v1, key) == v1);
                    let m = w.voice_state_guilds;
                    let m1 = v1.voice_state_guilds;
                    assert(m1 == spec_index_remove_prune(m, guild_id, vs.user_id));
                    if m.contains_key(guild_id) {
                        let s = m[guild_id].remove(vs.user_id);
                        if s == Set::<UserId>::empty() {
                            assert(!m1.contains_key(guild_id));
                            assert(spec_index_remove_prune(m1, guild_id, vs.user_id) == m1);
                        } else {
                            assert(m1[guild_id] == s);
                            assert(s.remove(vs.user_id) =~= s);
                            assert(m1.insert(guild_id, s) =~= m1);
                            assert(spec_index_remove_prune(m1, guild_id, vs.user_id) == m1);
                        }
                    } else {
                        assert(spec_index_remove_prune(m1, guild_id, vs.user_id) == m1);
                    }
                    assert(v1.voice_states.remove(key) =~= v1.voice_states);
                    assert(spec_cache_voice_state(v1, vs) =~= v1);
                },
                Some(channel_id) => {
                    assert(v1.voice_states.contains_key(key) && v1.voice_states[key] == vs);
                    let s = index_set(w.voice_state_channels, channel_id).insert(key);
                    assert(v1.voice_state_channels == w.voice_state_channels.insert(channel_id, s));
                    assert(index_set(v1.voice_state_channels, channel_id) == s);
                    assert(s.contains(key));
                    let v1c = spec_cleanup_old_channel(v1, key);
                    if s.remove(key) == Set::<MemberKey>::empty() {
                        assert(v1c.voice_state_channels == v1.voice_state_channels.remove(
                            channel_id,
                        ));
                        assert(index_set(v1c.voice_state_channels, channel_id).insert(key) =~= s);
                        assert(v1c.voice_state_channels.insert(channel_id, s)
                            =~= v1.voice_state_channels);
                    } else {
                        assert(v1c.voice_state_channels == v1.voice_state_channels.insert(
                            channel_id,
                            s.remove(key),
                        ));
                        assert(index_set(v1c.voice_state_channels, channel_id).insert(key) =~= s);
                        assert(v1c.voice_state_channels.insert(channel_id, s)
                            =~= v1.voice_state_channels);
                    }
                    assert(v1c.voice_states == v1.voice_states);
                    assert(v1c.voice_states.insert(key, vs) =~= v1.voice_states);
                    assert(v1.voice_state_guilds.contains_key(guild_id));
                    assert(index_set(v1.voice_state_guilds, guild_id).contains(vs.user_id));
                    assert(index_set(v1c.voice_state_guilds, guild_id).insert(vs.user_id)
                        =~= v1.voice_state_guilds[guild_id]);
                    assert(v1c.voice_state_guilds.insert(
                        guild_id,
                        index_set(v1c.voice_state_guilds, guild_id).insert(vs.user_id),
                    ) =~= v1.voice_state_guilds);
                    assert(spec_cache_voice_state(v1, vs) =~= v1);
                },
            }
        },
    }
}

/// A user referenced by several guilds survives the release of one
/// reference, with exactly one reference fewer and the record unchanged.
pub proof fn lemma_remove_reference_keeps(v: CacheView, user_id: UserId, guild_id: GuildId)
    requires
        v.users.contains_key(user_id),
        v.users[user_id].guilds.finite(),
        v.users[user_id].guilds.contains(guild_id),
        v.users[user_id].guilds.len() > 1,
    ensures
        spec_remove_guild_reference(v, user_id, guild_id).users.contains_key(user_id),
        spec_remove_guild_reference(v, user_id, guild_id).users[user_id].user
            == v.users[user_id].user,
        spec_remove_guild_reference(v, user_id, guild_id).users[user_id].guilds.len()
            == v.users[user_id].guilds.len() - 1,
        !spec_remove_guild_reference(v, user_id, guild_id).users[user_id].guilds.contains(guild_id),
{
    let s = v.users[user_id].guilds;
    assert(s.remove(guild_id).len() == s.len() - 1);
    assert(s.remove(guild_id) != Set::<GuildId>::empty()) by {
        if s.remove(guild_id) == Set::<GuildId>::empty() {
            assert(s.remove(guild_id).len() == 0);
        }
    }
}

/// Releasing a user's last guild reference deletes the record: the user is
/// no longer retrievable.
pub proof fn lemma_remove_reference_last(v: CacheView, user_id: UserId, guild_id: GuildId)
    requires
        v.users.contains_key(user_id),
        v.users[user_id].guilds.finite(),
        v.users[user_id].guilds.contains(guild_id),
        v.users[user_id].guilds.len() == 1,
    ensures
        !spec_remove_guild_reference(v, user_id, guild_id).users.contains_key(user_id),
{
    let s = v.users[user_id].guilds;
    assert(s.remove(guild_id).len() == 0);
    assert(s.remove(guild_id) =~= Set::<GuildId>::empty()) by {
        assert forall|x: GuildId| !s.remove(guild_id).contains(x) by {
            if s.remove(guild_id).contains(x) {
                assert(s.remove(guild_id).remove(x).len() == s.remove(guild_id).len() - 1);
            }
        }
    }
}

/// After a clear, every table reports zero entries and every point lookup
/// returns absent; the configuration stays.
pub proof fn lemma_clear_reads_absent(v: CacheView)
    ensures
        spec_clear(v).config == v.config,
        spec_clear(v).current_user is None,
        forall|c: ChannelId| !spec_clear(v).channels_guild.contains_key(c),
        forall|c: ChannelId| !spec_clear(v).channels_private.contains_key(c),
        forall|c: ChannelId| !spec_clear(v).groups.contains_key(c),
        forall|c: ChannelId| !spec_clear(v).messages.contains_key(c),
        forall|c: ChannelId| !spec_clear(v).voice_state_channels.contains_key(c),
        forall|e: EmojiId| !spec_clear(v).emojis.contains_key(e),
        forall|g: GuildId| !spec_clear(v).guilds.contains_key(g),
        forall|g: GuildId| !spec_clear(v).guild_channels.contains_key(g),
        forall|g: GuildId| !spec_clear(v).guild_emojis.contains_key(g),
        forall|g: GuildId| !spec_clear(v).guild_integrations.contains_key(g),
        forall|g: GuildId| !spec_clear(v).guild_members.contains_key(g),
        forall|g: GuildId| !spec_clear(v).guild_presences.contains_key(g),
        forall|g: GuildId| !spec_clear(v).guild_roles.contains_key(g),
        forall|g: GuildId| !spec_clear(v).guild_stage_instances.contains_key(g),
        forall|g: GuildId| !spec_clear(v).voice_state_guilds.contains_key(g),
        forall|g: GuildId| !spec_clear(v).unavailable_guilds.contains(g),
        forall|k: IntegrationKey| !spec_clear(v).integrations.contains_key(k),
        forall|k: MemberKey| !spec_clear(v).members.contains_key(k),
        forall|k: MemberKey| !spec_clear(v).presences.contains_key(k),
        forall|k: MemberKey| !spec_clear(v).voice_states.contains_key(k),
        forall|r: RoleId| !spec_clear(v).roles.contains_key(r),
        forall|s: StageId| !spec_clear(v).stage_instances.contains_key(s),
        forall|u: UserId| !spec_clear(v).users.contains_key(u),
        spec_clear(v).guilds.dom() =~= Set::<GuildId>::empty(),
        spec_clear(v).members.dom() =~= Set::<MemberKey>::empty(),
        spec_clear(v).emojis.dom() =~= Set::<EmojiId>::empty(),
        spec_clear(v).users.dom() =~= Set::<UserId>::empty(),
        spec_clear(v).voice_states.dom() =~= Set::<MemberKey>::empty(),
{
}

/// A channel is marked for a guild when the channel table stores it with its
/// owning-guild field pointing at that guild.
pub open spec fn channel_marked(v: CacheView, guild_id: GuildId, c: ChannelId) -> bool {
    v.channels_guild.contains_key(c) && v.channels_guild[c].data.guild_id == Some(guild_id)
}

/// Caching a snapshot's channels marks every one of them for the guild, and
/// keeps every channel already marked.
pub proof fn lemma_channel_seq_injects(v: CacheView, guild_id: GuildId, cs: Seq<GuildChannelView>)
    ensures
        forall|x: ChannelId|
            channel_marked(v, guild_id, x) ==> #[trigger] channel_marked(
                spec_cache_guild_channel_seq(v, guild_id, cs),
                guild_id,
                x,
            ),
        forall|i: int|
            0 <= i < cs.len() ==> #[trigger] channel_marked(
                spec_cache_guild_channel_seq(v, guild_id, cs),
                guild_id,
                cs[i].id,
            ),
    decreases cs.len(),
{
    if cs.len() > 0 {
        let c0 = cs.first();
        let v1 = spec_cache_guild_channel(v, guild_id, c0);
        let r = spec_cache_guild_channel_seq(v, guild_id, cs);
        assert(r == spec_cache_guild_channel_seq(v1, guild_id, cs.drop_first()));
        assert(channel_marked(v1, guild_id, c0.id));
        assert(forall|x: ChannelId|
            channel_marked(v, guild_id, x) ==> channel_marked(v1, guild_id, x));
        lemma_channel_seq_injects(v1, guild_id, cs.drop_first());
        assert forall|x: ChannelId|
            channel_marked(v, guild_id, x) implies #[trigger] channel_marked(r, guild_id, x) by {
            assert(channel_marked(v1, guild_id, x));
        }
        assert forall|i: int| 0 <= i < cs.len() implies #[trigger] channel_marked(
            r,
            guild_id,
            cs[i].id,
        ) by {
            if i == 0 {
                assert(channel_marked(r, guild_id, c0.id));
            } else {
                assert(cs.drop_first()[i - 1] == cs[i]);
                assert(channel_marked(r, guild_id, cs.drop_first()[i - 1].id));
            }
        }
    }
}

/// A channel supplied as part of a guild snapshot, even without an explicit
/// owning-guild field, is stored with its owning-guild field equal to the
/// snapshot's guild id, as long as channels are a cached category.
pub proof fn lemma_guild_create_injects_back_references(v: CacheView, g: GuildView)
    requires
        wants_resource(v, ResourceType::Channel),
    ensures
        forall|i: int|
            0 <= i < g.channels.len() ==> #[trigger] channel_marked(
                spec_cache_guild(v, g),
                g.id,
                g.channels[i].id,
            ),
{
    let va = CacheView { guild_channels: v.guild_channels.insert(g.id, Set::empty()), ..v };
    let v1 = spec_cache_guild_channel_seq(va, g.id, g.channels);
    lemma_channel_seq_injects(va, g.id, g.channels);
    let v2 = if wants_resource(v, ResourceType::Emoji) {
        spec_cache_emojis(
            CacheView { guild_emojis: v1.guild_emojis.insert(g.id, Set::empty()), ..v1 },
            g.id,
            g.emojis,
        )
    } else {
        v1
    };
    lemma_emoji_refresh_frame(
        CacheView { guild_emojis: v1.guild_emojis.insert(g.id, Set::empty()), ..v1 },
        g.id,
        g.emojis,
    );
    assert(v2.channels_guild == v1.channels_guild);
    let v3 = if wants_resource(v, ResourceType::Member) {
        spec_cache_member_seq(
            CacheView { guild_members: v2.guild_members.insert(g.id, Set::empty()), ..v2 },
            g.id,
            g.members,
        )
    } else {
        v2
    };
    lemma_member_seq_frame(
        CacheView { guild_members: v2.guild_members.insert(g.id, Set::empty()), ..v2 },
        g.id,
        g.members,
    );
    assert(v3.channels_guild == v1.channels_guild);
    let v4 = if wants_resource(v, ResourceType::Presence) {
        spec_cache_presence_seq(
            CacheView { guild_presences: v3.guild_presences.insert(g.id, Set::empty()), ..v3 },
            g.id,
            g.presences,
        )
    } else {
        v3
    };
    lemma_presence_seq_frame(
        CacheView { guild_presences: v3.guild_presences.insert(g.id, Set::empty()), ..v3 },
        g.id,
        g.presences,
    );
    assert(v4.channels_guild == v1.channels_guild);
    let v5 = if wants_resource(v, ResourceType::Role) {
        spec_cache_role_seq(
            CacheView { guild_roles: v4.guild_roles.insert(g.id, Set::empty()), ..v4 },
            g.id,
            g.roles,
        )
    } else {
        v4
    };
    lemma_role_seq_frame(
        CacheView { guild_roles: v4.guild_roles.insert(g.id, Set::empty()), ..v4 },
        g.id,
        g.roles,
    );
    assert(v5.channels_guild == v1.channels_guild);
    let v6 = if wants_resource(v, ResourceType::VoiceState) {
        spec_cache_voice_state_seq(
            CacheView {
                voice_state_guilds: v5.voice_state_guilds.insert(g.id, Set::empty()),
                ..v5
            },
            g.voice_states,
        )
    } else {
        v5
    };
    lemma_voice_seq_frame(
        CacheView { voice_state_guilds: v5.voice_state_guilds.insert(g.id, Set::empty()), ..v5 },
        g.voice_states,
    );
    assert(v6.channels_guild == v1.channels_guild);
    let v7 = if wants_resource(v, ResourceType::StageInstance) {
        spec_cache_stage_instance_seq(
            CacheView {
                guild_stage_instances: v6.guild_stage_instances.insert(g.id, Set::empty()),
                ..v6
            },
            g.id,
            g.stage_instances,
        )
    } else {
        v6
    };
    lemma_stage_seq_frame(
        CacheView {
            guild_stage_instances: v6.guild_stage_instances.insert(g.id, Set::empty()),
            ..v6
        },
        g.id,
        g.stage_instances,
    );
    assert(v7.channels_guild == v1.channels_guild);
    assert(spec_cache_guild(v, g).channels_guild == v1.channels_guild);
    assert forall|i: int|
        0 <= i < g.channels.len() implies #[trigger] channel_marked(
        spec_cache_guild(v, g),
        g.id,
        g.channels[i].id,
    ) by {
        assert(channel_marked(v1, g.id, g.channels[i].id));
    }
}

/// What a whole run of bounded appends leaves in one channel's list.
pub open spec fn spec_push_all(
    s: Seq<CachedMessageView>,
    ms: Seq<CachedMessageView>,
    max: nat,
) -> Seq<CachedMessageView>
    decreases ms.len(),
{
    if ms.len() == 0 {
        s
    } else {
        spec_push_all(spec_bounded_push(s, ms.first(), max), ms.drop_first(), max)
    }
}

/// A bounded append never leaves more than the bound.
pub proof fn lemma_bounded_push_len(s: Seq<CachedMessageView>, m: CachedMessageView, max: nat)
    ensures
        spec_bounded_push(s, m, max).len() <= max,
{
}

/// Message bounding: inserting any run of messages into a channel retains
/// exactly the most recent ones up to the bound, insertion order preserved
/// among the retained set.
pub proof fn lemma_message_bounding(
    s: Seq<CachedMessageView>,
    ms: Seq<CachedMessageView>,
    max: nat,
)
    requires
        max >= 1,
        s.len() <= max,
    ensures
        spec_push_all(s, ms, max) == (if s.len() + ms.len() <= max {
            s + ms
        } else {
            (s + ms).skip(s.len() + ms.len() - max)
        }),
        spec_push_all(s, ms, max).len() <= max,
    decreases ms.len(),
{
    if ms.len() == 0 {
        assert(s + ms =~= s);
    } else {
        let m0 = ms.first();
        let s1 = spec_bounded_push(s, m0, max);
        assert(s1.len() <= max);
        lemma_message_bounding(s1, ms.drop_first(), max);
        if s.len() < max {
            assert(s1 == s.push(m0));
            assert(s.push(m0) + ms.drop_first() =~= s + ms);
        } else {
            assert(s.len() == max);
            assert(s1 == s.skip(s.len() - (max - 1)).push(m0));
            assert(s.skip(1).push(m0) + ms.drop_first() =~= (s + ms).skip(1));
            assert(s1 + ms.drop_first() =~= (s + ms).skip(1));
            if s1.len() + ms.drop_first().len() <= max {
                assert(spec_push_all(s, ms, max) == s1 + ms.drop_first());
                assert((s + ms).skip(s.len() + ms.len() - max) =~= s1 + ms.drop_first());
            } else {
                assert(spec_push_all(s, ms, max) == (s1 + ms.drop_first()).skip(
                    s1.len() + ms.drop_first().len() - max,
                ));
                assert((s1 + ms.drop_first()).skip(s1.len() + ms.drop_first().len() - max) =~= (s
                    + ms).skip(s.len() + ms.len() - max));
            }
        }
    }
}

/// The three-way voice invariant: a (guild, user) pair has a record exactly
/// when the user stands in that guild's connected set; a pair stands in a
/// channel's connected set exactly when its record says it is connected to
/// that channel; and no index entry holds an empty set.
pub open spec fn voice_coherent(v: CacheView) -> bool {
    &&& forall|g: GuildId, u: UserId|
        #[trigger] index_set(v.voice_state_guilds, g).contains(u) <==> v.voice_states.contains_key(
            MemberKey { guild_id: g, user_id: u },
        )
    &&& forall|c: ChannelId, k: MemberKey|
        #[trigger] index_set(v.voice_state_channels, c).contains(k) <==> (
        v.voice_states.contains_key(k) && v.voice_states[k].channel_id == Some(c))
    &&& forall|g: GuildId| #[trigger]
        v.voice_state_guilds.contains_key(g) ==> v.voice_state_guilds[g] != Set::<UserId>::empty()
    &&& forall|c: ChannelId| #[trigger]
        v.voice_state_channels.contains_key(c) ==> v.voice_state_channels[c]
            != Set::<MemberKey>::empty()
}

/// A cache that holds nothing satisfies the voice invariant.
pub proof fn lemma_empty_cache_voice_coherent(config: Config)
    ensures
        voice_coherent(spec_empty_cache(config)),
{
}

/// After the cleanup step, no channel's connected set holds the pair.
proof fn lemma_cleanup_clears_pair(v: CacheView, key: MemberKey)
    requires
        voice_coherent(v),
    ensures
        forall|c: ChannelId|
            !(#[trigger] index_set(
                spec_cleanup_old_channel(v, key).voice_state_channels,
                c,
            ).contains(key)),
        spec_cleanup_old_channel(v, key).voice_states == v.voice_states,
        spec_cleanup_old_channel(v, key).voice_state_guilds == v.voice_state_guilds,
        forall|c: ChannelId, k: MemberKey|
            k != key ==> (#[trigger] index_set(
                spec_cleanup_old_channel(v, key).voice_state_channels,
                c,
            ).contains(k) <==> index_set(v.voice_state_channels, c).contains(k)),
        forall|c: ChannelId| #[trigger]
            spec_cleanup_old_channel(v, key).voice_state_channels.contains_key(c)
                ==> spec_cleanup_old_channel(v, key).voice_state_channels[c]
                != Set::<MemberKey>::empty(),
{
    let w = spec_cleanup_old_channel(v, key);
    if v.voice_states.contains_key(key) {
        match v.voice_states[key].channel_id {
            Some(old_channel) => {
                assert(index_set(v.voice_state_channels, old_channel).contains(key));
                assert(v.voice_state_channels.contains_key(old_channel));
                assert forall|c: ChannelId|
                    !(#[trigger] index_set(w.voice_state_channels, c).contains(key)) by {
                    assert(index_set(v.voice_state_channels, c).contains(key) <==> (
                    v.voice_states.contains_key(key) && v.voice_states[key].channel_id == Some(c)));
                }
            },
            None => {
                assert forall|c: ChannelId|
                    !(#[trigger] index_set(w.voice_state_channels, c).contains(key)) by {
                    assert(index_set(v.voice_state_channels, c).contains(key) <==> (
                    v.voice_states.contains_key(key) && v.voice_states[key].channel_id == Some(c)));
                }
            },
        }
    } else {
        assert forall|c: ChannelId|
            !(#[trigger] index_set(w.voice_state_channels, c).contains(key)) by {
            assert(index_set(v.voice_state_channels, c).contains(key) <==> (
            v.voice_states.contains_key(key) && v.voice_states[key].channel_id == Some(c)));
        }
    }
}

/// One voice-state update preserves the three-way voice invariant.
pub proof fn lemma_cache_voice_state_preserves_coherence(v: CacheView, vs: VoiceStateView)
    requires
        voice_coherent(v),
    ensures
        voice_coherent(spec_cache_voice_state(v, vs)),
{
    match vs.guild_id {
        None => {},
        Some(guild_id) => {
            let key = MemberKey { guild_id, user_id: vs.user_id };
            let w = spec_cleanup_old_channel(v, key);
            lemma_cleanup_clears_pair(v, key);
            let r = spec_cache_voice_state(v, vs);
            match vs.channel_id {
                None => {
                    assert forall|g: GuildId, u: UserId| #[trigger]
                        index_set(r.voice_state_guilds, g).contains(u)
                            <==> r.voice_states.contains_key(
                        MemberKey { guild_id: g, user_id: u },
                    ) by {
                        assert(index_set(v.voice_state_guilds, g).contains(u)
                            <==> v.voice_states.contains_key(MemberKey { guild_id: g, user_id: u }));
                        assert(index_set(v.voice_state_guilds, guild_id).contains(vs.user_id)
                            <==> v.voice_states.contains_key(key));
                    }
                    assert forall|c: ChannelId, k: MemberKey| #[trigger]
                        index_set(r.voice_state_channels, c).contains(k) <==> (
                    r.voice_states.contains_key(k) && r.voice_states[k].channel_id == Some(c)) by {
                        if k == key {
                            assert(!index_set(w.voice_state_channels, c).contains(key));
                        } else {
                            assert(index_set(w.voice_state_channels, c).contains(k) <==> index_set(
                                v.voice_state_channels,
                                c,
                            ).contains(k));
                            assert(index_set(v.voice_state_channels, c).contains(k) <==> (
                            v.voice_states.contains_key(k) && v.voice_states[k].channel_id == Some(
                                c,
                            )));
                        }
                    }
                    assert forall|g: GuildId| #[trigger]
                        r.voice_state_guilds.contains_key(g) implies r.voice_state_guilds[g]
                        != Set::<UserId>::empty() by {
                        assert(v.voice_state_guilds.contains_key(g) ==> v.voice_state_guilds[g]
                            != Set::<UserId>::empty());
                        if g == guild_id && v.voice_state_guilds.contains_key(guild_id) {
                            let s = v.voice_state_guilds[guild_id].remove(vs.user_id);
                            if s == Set::<UserId>::empty() {
                                assert(!r.voice_state_guilds.contains_key(guild_id));
                            }
                        }
                    }
                },
                Some(channel_id) => {
                    assert forall|g: GuildId, u: UserId| #[trigger]
                        index_set(r.voice_state_guilds, g).contains(u)
                            <==> r.voice_states.contains_key(
                        MemberKey { guild_id: g, user_id: u },
                    ) by {
                        assert(index_set(v.voice_state_guilds, g).contains(u)
                            <==> v.voice_states.contains_key(MemberKey { guild_id: g, user_id: u }));
                    }
                    assert forall|c: ChannelId, k: MemberKey| #[trigger]
                        index_set(r.voice_state_channels, c).contains(k) <==> (
                    r.voice_states.contains_key(k) && r.voice_states[k].channel_id == Some(c)) by {
                        if k == key {
                            assert(!index_set(w.voice_state_channels, c).contains(key));
                            assert(r.voice_states[key] == vs);
                        } else {
                            assert(index_set(w.voice_state_channels, c).contains(k) <==> index_set(
                                v.voice_state_channels,
                                c,
                            ).contains(k));
                            assert(index_set(v.voice_state_channels, c).contains(k) <==> (
                            v.voice_states.contains_key(k) && v.voice_states[k].channel_id == Some(
                                c,
                            )));
                        }
                    }
                    assert forall|g: GuildId| #[trigger]
                        r.voice_state_guilds.contains_key(g) implies r.voice_state_guilds[g]
                        != Set::<UserId>::empty() by {
                        assert(v.voice_state_guilds.contains_key(g) ==> v.voice_state_guilds[g]
                            != Set::<UserId>::empty());
                        if g == guild_id {
                            assert(r.voice_state_guilds[guild_id].contains(vs.user_id));
                        }
                    }
                    assert forall|c: ChannelId| #[trigger]
                        r.voice_state_channels.contains_key(c) implies r.voice_state_channels[c]
                        != Set::<MemberKey>::empty() by {
                        if c == channel_id {
                            assert(r.voice_state_channels[channel_id].contains(key));
                        } else {
                            assert(w.voice_state_channels.contains_key(c)
                                ==> w.voice_state_channels[c] != Set::<MemberKey>::empty());
                        }
                    }
                },
            }
        },
    }
}

/// Whether two cache states agree on every emoji entry outside a key set.
spec fn emojis_unchanged_outside(v1: CacheView, v2: CacheView, ids: Set<EmojiId>) -> bool {
    forall|x: EmojiId| #![trigger ids.contains(x)]
        !ids.contains(x) ==> (v2.emojis.contains_key(x) == v1.emojis.contains_key(x) && (
        v1.emojis.contains_key(x) ==> v2.emojis[x] == v1.emojis[x]))
}

/// Upserting a sequence of emojis with distinct ids leaves, for each of
/// them, exactly its projection in the primary table, and touches no other
/// emoji entry.
proof fn lemma_emoji_seq_establishes(v: CacheView, guild_id: GuildId, es: Seq<EmojiView>)
    requires
        emoji_ids(es).no_duplicates(),
    ensures
        forall|i: int|
            0 <= i < es.len() ==> spec_cache_emoji_seq(v, guild_id, es).emojis.contains_key(
                #[trigger] es[i].id,
            ) && spec_cache_emoji_seq(v, guild_id, es).emojis[es[i].id].data == emoji_to_cached(
                es[i],
            ),
        emojis_unchanged_outside(v, spec_cache_emoji_seq(v, guild_id, es), emoji_ids(es).to_set()),
    decreases es.len(),
{
    if es.len() == 0 {
        assert(spec_cache_emoji_seq(v, guild_id, es) == v);
        assert(emojis_unchanged_outside(
            v,
            spec_cache_emoji_seq(v, guild_id, es),
            emoji_ids(es).to_set(),
        ));
    } else {
        let e0 = es.first();
        let v1 = spec_cache_emoji(v, guild_id, e0);
        let r = spec_cache_emoji_seq(v, guild_id, es);
        assert(r == spec_cache_emoji_seq(v1, guild_id, es.drop_first()));
        if !(v.emojis.contains_key(e0.id) && v.emojis[e0.id].data == emoji_to_cached(e0)) {
            match e0.user {
                Some(u) => {
                    lemma_cache_user_frame(v, u, Some(guild_id));
                },
                None => {},
            }
        }
        assert(v1.emojis.contains_key(e0.id) && v1.emojis[e0.id].data == emoji_to_cached(e0));
        assert(emoji_ids(es.drop_first()) =~= emoji_ids(es).drop_first()) by {
            assert(forall|i: int|
                0 <= i < es.drop_first().len() ==> emoji_ids(es.drop_first())[i] == emoji_ids(
                    es,
                ).drop_first()[i]);
        }
        assert(emoji_ids(es).drop_first().no_duplicates()) by {
            assert(forall|i: int, j: int|
                0 <= i < j < emoji_ids(es).drop_first().len() ==> emoji_ids(es).drop_first()[i]
                    != emoji_ids(es).drop_first()[j]);
        }
        lemma_emoji_seq_establishes(v1, guild_id, es.drop_first());
        assert(!emoji_ids(es.drop_first()).to_set().contains(e0.id)) by {
            if emoji_ids(es.drop_first()).to_set().contains(e0.id) {
                let i = choose|i: int|
                    0 <= i < emoji_ids(es.drop_first()).len() && emoji_ids(es.drop_first())[i]
                        == e0.id;
                assert(emoji_ids(es)[i + 1] == e0.id);
                assert(emoji_ids(es)[0] == e0.id);
            }
        }
        assert forall|i: int|
            0 <= i < es.len() implies spec_cache_emoji_seq(v, guild_id, es).emojis.contains_key(
            #[trigger] es[i].id,
        ) && spec_cache_emoji_seq(v, guild_id, es).emojis[es[i].id].data == emoji_to_cached(
            es[i],
        ) by {
            if i == 0 {
                assert(emojis_unchanged_outside(
                    v1,
                    r,
                    emoji_ids(es.drop_first()).to_set(),
                ));
                assert(r.emojis.contains_key(e0.id) && r.emojis[e0.id] == v1.emojis[e0.id]);
            } else {
                assert(es.drop_first()[i - 1] == es[i]);
            }
        }
        assert forall|x: EmojiId| #![trigger emoji_ids(es).to_set().contains(x)]
            !emoji_ids(es).to_set().contains(x) implies (spec_cache_emoji_seq(
            v,
            guild_id,
            es,
        ).emojis.contains_key(x) == v.emojis.contains_key(x) && (v.emojis.contains_key(x)
            ==> spec_cache_emoji_seq(v, guild_id, es).emojis[x] == v.emojis[x])) by {
            assert(emoji_ids(es)[0] == e0.id);
            assert(x != e0.id);
            assert(v1.emojis.contains_key(x) == v.emojis.contains_key(x) && (
            v.emojis.contains_key(x) ==> v1.emojis[x] == v.emojis[x]));
            assert(!emoji_ids(es.drop_first()).to_set().contains(x)) by {
                if emoji_ids(es.drop_first()).to_set().contains(x) {
                    let i = choose|i: int|
                        0 <= i < emoji_ids(es.drop_first()).len() && emoji_ids(es.drop_first())[i]
                            == x;
                    assert(emoji_ids(es)[i + 1] == x);
                }
            }
            assert(emojis_unchanged_outside(v1, r, emoji_ids(es.drop_first()).to_set()));
        }
        assert(emojis_unchanged_outside(
            v,
            spec_cache_emoji_seq(v, guild_id, es),
            emoji_ids(es).to_set(),
        ));
    }
}

/// Upserting a sequence of emojis whose projections are all already stored
/// changes nothing.
proof fn lemma_emoji_seq_noop(v: CacheView, guild_id: GuildId, es: Seq<EmojiView>)
    requires
        forall|i: int|
            0 <= i < es.len() ==> v.emojis.contains_key(#[trigger] es[i].id)
                && v.emojis[es[i].id].data == emoji_to_cached(es[i]),
    ensures
        spec_cache_emoji_seq(v, guild_id, es) == v,
    decreases es.len(),
{
    if es.len() > 0 {
        assert(v.emojis.contains_key(es[0].id) && v.emojis[es[0].id].data == emoji_to_cached(
            es[0],
        ));
        assert(spec_cache_emoji(v, guild_id, es.first()) == v);
        assert(forall|i: int| 0 <= i < es.drop_first().len() ==> es.drop_first()[i] == es[i + 1]);
        lemma_emoji_seq_noop(v, guild_id, es.drop_first());
    }
}

/// Applying the same authoritative emoji refresh twice leaves every table as
/// applying it once, for a coherent cache, a collection with distinct ids,
/// and no incoming emoji currently owned by another guild.
pub proof fn lemma_cache_emojis_idempotent(v: CacheView, guild_id: GuildId, es: Seq<EmojiView>)
    requires
        emojis_coherent(v),
        emoji_ids(es).no_duplicates(),
        forall|i: int|
            0 <= i < es.len() ==> (v.emojis.contains_key(#[trigger] es[i].id)
                ==> v.emojis[es[i].id].guild_id == guild_id),
    ensures
        spec_cache_emojis(spec_cache_emojis(v, guild_id, es), guild_id, es) == spec_cache_emojis(
            v,
            guild_id,
            es,
        ),
{
    let incoming = emoji_ids(es).to_set();
    let v1 = spec_cache_emojis(v, guild_id, es);
    let pruned = spec_prune_stale_emojis(v, guild_id, incoming);
    lemma_cache_emojis_exact(v, guild_id, es);
    lemma_emoji_seq_establishes(pruned, guild_id, es);
    assert(index_set(v1.guild_emojis, guild_id) == incoming);
    assert(forall|i: int|
        0 <= i < es.len() ==> v1.emojis.contains_key(#[trigger] es[i].id)
            && v1.emojis[es[i].id].data == emoji_to_cached(es[i]));
    let pruned2 = spec_prune_stale_emojis(v1, guild_id, incoming);
    if es.len() == 0 {
        if v.guild_emojis.contains_key(guild_id) {
            assert(v1.guild_emojis.contains_key(guild_id));
            assert(v1.guild_emojis[guild_id] == incoming);
            assert(v1.guild_emojis[guild_id].intersect(incoming) =~= incoming);
            assert(v1.guild_emojis.insert(guild_id, incoming) =~= v1.guild_emojis);
            assert(v1.guild_emojis[guild_id].difference(incoming) =~= Set::<EmojiId>::empty());
            assert(v1.emojis.remove_keys(Set::<EmojiId>::empty()) =~= v1.emojis);
            assert(pruned2 =~= v1);
        } else {
            assert(pruned == v);
            assert(v1 == v);
            assert(pruned2 == v1);
        }
        assert(spec_cache_emojis(v1, guild_id, es) == pruned2);
        assert(spec_cache_emojis(v1, guild_id, es) == v1);
    } else {
        assert(emoji_ids(es)[0] == es[0].id);
        assert(incoming.contains(es[0].id));
        assert(v1.guild_emojis.contains_key(guild_id)) by {
            if !v1.guild_emojis.contains_key(guild_id) {
                assert(index_set(v1.guild_emojis, guild_id) =~= Set::<EmojiId>::empty());
            }
        }
        assert(v1.guild_emojis[guild_id] == incoming);
        assert(v1.guild_emojis[guild_id].intersect(incoming) =~= incoming);
        assert(v1.guild_emojis.insert(guild_id, incoming) =~= v1.guild_emojis);
        assert(v1.guild_emojis[guild_id].difference(incoming) =~= Set::<EmojiId>::empty());
        assert(v1.emojis.remove_keys(Set::<EmojiId>::empty()) =~= v1.emojis);
        assert(pruned2 =~= v1);
        lemma_emoji_seq_noop(v1, guild_id, es);
        assert(spec_cache_emojis(v1, guild_id, es) == spec_cache_emoji_seq(pruned2, guild_id, es));
        assert(spec_cache_emoji_seq(v1, guild_id, es) == v1);
    }
}

/// Every index/primary coherence property at once.
pub open spec fn all_indices_coherent(v: CacheView) -> bool {
    &&& roles_coherent(v)
    &&& channels_coherent(v)
    &&& emojis_coherent(v)
    &&& stage_instances_coherent(v)
    &&& integrations_coherent(v)
    &&& members_coherent(v)
    &&& presences_coherent(v)
}

/// Upserting a sequence of members preserves member coherence.
pub proof fn lemma_cache_member_seq_preserves_coherence(
    v: CacheView,
    guild_id: GuildId,
    ms: Seq<MemberView>,
)
    requires
        members_coherent(v),
    ensures
        members_coherent(spec_cache_member_seq(v, guild_id, ms)),
    decreases ms.len(),
{
    if ms.len() > 0 {
        lemma_cache_member_preserves_coherence(v, guild_id, ms.first());
        lemma_cache_member_seq_preserves_coherence(
            spec_cache_member(v, guild_id, ms.first()),
            guild_id,
            ms.drop_first(),
        );
    }
}

/// Whether an event leaves every entity it carries under the guild that
/// currently owns it: no event re-homes a cached entity to another guild,
/// and no whole-guild snapshot (which resets index containers) is applied.
pub open spec fn event_respects_ownership(v: CacheView, e: Event) -> bool {
    match e {
        Event::ChannelCreate(c) => match c.guild_id {
            Some(guild_id) => v.channels_guild.contains_key(c.id)
                ==> v.channels_guild[c.id].guild_id == guild_id,
            None => true,
        },
        Event::ChannelUpdate(c) => match c.guild_id {
            Some(guild_id) => v.channels_guild.contains_key(c.id)
                ==> v.channels_guild[c.id].guild_id == guild_id,
            None => true,
        },
        Event::GuildCreate(_) => false,
        Event::GuildEmojisUpdate { guild_id, emojis } => forall|i: int|
            0 <= i < emojis.len() ==> (v.emojis.contains_key(
                #[trigger] emojis[i].id,
            ) ==> v.emojis[emojis[i].id].guild_id == guild_id),
        Event::RoleCreate { guild_id, role } => v.roles.contains_key(role.id)
            ==> v.roles[role.id].guild_id == guild_id,
        Event::RoleUpdate { guild_id, role } => v.roles.contains_key(role.id)
            ==> v.roles[role.id].guild_id == guild_id,
        Event::StageInstanceCreate(s) => v.stage_instances.contains_key(s.id)
            ==> v.stage_instances[s.id].guild_id == s.guild_id,
        Event::StageInstanceUpdate(s) => v.stage_instances.contains_key(s.id)
            ==> v.stage_instances[s.id].guild_id == s.guild_id,
        _ => true,
    }
}

/// Upserting a member changes only the member, member-index and user tables.
pub proof fn lemma_member_seq_frame(v: CacheView, guild_id: GuildId, ms: Seq<MemberView>)
    ensures
        spec_cache_member_seq(v, guild_id, ms) == (CacheView {
            members: spec_cache_member_seq(v, guild_id, ms).members,
            guild_members: spec_cache_member_seq(v, guild_id, ms).guild_members,
            users: spec_cache_member_seq(v, guild_id, ms).users,
            ..v
        }),
    decreases ms.len(),
{
    if ms.len() == 0 {
        assert(spec_cache_member_seq(v, guild_id, ms) =~= (CacheView {
            members: spec_cache_member_seq(v, guild_id, ms).members,
            guild_members: spec_cache_member_seq(v, guild_id, ms).guild_members,
            users: spec_cache_member_seq(v, guild_id, ms).users,
            ..v
        }));
    } else {
        let v1 = spec_cache_member(v, guild_id, ms.first());
        lemma_cache_user_frame(v, ms.first().user, Some(guild_id));
        lemma_member_seq_frame(v1, guild_id, ms.drop_first());
        assert(spec_cache_member_seq(v, guild_id, ms) =~= (CacheView {
            members: spec_cache_member_seq(v, guild_id, ms).members,
            guild_members: spec_cache_member_seq(v, guild_id, ms).guild_members,
            users: spec_cache_member_seq(v, guild_id, ms).users,
            ..v
        }));
    }
}

/// Upserting a sequence of emojis changes only the emoji, emoji-index and
/// user tables.
proof fn lemma_emoji_seq_frame(v: CacheView, guild_id: GuildId, es: Seq<EmojiView>)
    ensures
        spec_cache_emoji_seq(v, guild_id, es) == (CacheView {
            emojis: spec_cache_emoji_seq(v, guild_id, es).emojis,
            guild_emojis: spec_cache_emoji_seq(v, guild_id, es).guild_emojis,
            users: spec_cache_emoji_seq(v, guild_id, es).users,
            ..v
        }),
    decreases es.len(),
{
    if es.len() == 0 {
        assert(spec_cache_emoji_seq(v, guild_id, es) =~= (CacheView {
            emojis: spec_cache_emoji_seq(v, guild_id, es).emojis,
            guild_emojis: spec_cache_emoji_seq(v, guild_id, es).guild_emojis,
            users: spec_cache_emoji_seq(v, guild_id, es).users,
            ..v
        }));
    } else {
        let e0 = es.first();
        let v1 = spec_cache_emoji(v, guild_id, e0);
        if !(v.emojis.contains_key(e0.id) && v.emojis[e0.id].data == emoji_to_cached(e0)) {
            match e0.user {
                Some(u) => {
                    lemma_cache_user_frame(v, u, Some(guild_id));
                },
                None => {},
            }
        }
        lemma_emoji_seq_frame(v1, guild_id, es.drop_first());
        assert(spec_cache_emoji_seq(v, guild_id, es) =~= (CacheView {
            emojis: spec_cache_emoji_seq(v, guild_id, es).emojis,
            guild_emojis: spec_cache_emoji_seq(v, guild_id, es).guild_emojis,
            users: spec_cache_emoji_seq(v, guild_id, es).users,
            ..v
        }));
    }
}

/// An emoji refresh changes only the emoji, emoji-index and user tables.
pub proof fn lemma_emoji_refresh_frame(v: CacheView, guild_id: GuildId, es: Seq<EmojiView>)
    ensures
        spec_cache_emojis(v, guild_id, es) == (CacheView {
            emojis: spec_cache_emojis(v, guild_id, es).emojis,
            guild_emojis: spec_cache_emojis(v, guild_id, es).guild_emojis,
            users: spec_cache_emojis(v, guild_id, es).users,
            ..v
        }),
{
    let v1 = spec_prune_stale_emojis(v, guild_id, emoji_ids(es).to_set());
    lemma_emoji_seq_frame(v1, guild_id, es);
    assert(spec_cache_emojis(v, guild_id, es) =~= (CacheView {
        emojis: spec_cache_emojis(v, guild_id, es).emojis,
        guild_emojis: spec_cache_emojis(v, guild_id, es).guild_emojis,
        users: spec_cache_emojis(v, guild_id, es).users,
        ..v
    }));
}

/// Upserting a channel sequence changes only the channel tables.
pub proof fn lemma_channel_seq_frame(v: CacheView, guild_id: GuildId, cs: Seq<GuildChannelView>)
    ensures
        spec_cache_guild_channel_seq(v, guild_id, cs) == (CacheView {
            channels_guild: spec_cache_guild_channel_seq(v, guild_id, cs).channels_guild,
            guild_channels: spec_cache_guild_channel_seq(v, guild_id, cs).guild_channels,
            ..v
        }),
    decreases cs.len(),
{
    if cs.len() > 0 {
        lemma_channel_seq_frame(
            spec_cache_guild_channel(v, guild_id, cs.first()),
            guild_id,
            cs.drop_first(),
        );
    }
    assert(spec_cache_guild_channel_seq(v, guild_id, cs) =~= (CacheView {
        channels_guild: spec_cache_guild_channel_seq(v, guild_id, cs).channels_guild,
        guild_channels: spec_cache_guild_channel_seq(v, guild_id, cs).guild_channels,
        ..v
    }));
}

/// Upserting a role sequence changes only the role tables.
pub proof fn lemma_role_seq_frame(v: CacheView, guild_id: GuildId, rs: Seq<RoleView>)
    ensures
        spec_cache_role_seq(v, guild_id, rs) == (CacheView {
            roles: spec_cache_role_seq(v, guild_id, rs).roles,
            guild_roles: spec_cache_role_seq(v, guild_id, rs).guild_roles,
            ..v
        }),
    decreases rs.len(),
{
    if rs.len() > 0 {
        lemma_role_seq_frame(spec_cache_role(v, guild_id, rs.first()), guild_id, rs.drop_first());
    }
    assert(spec_cache_role_seq(v, guild_id, rs) =~= (CacheView {
        roles: spec_cache_role_seq(v, guild_id, rs).roles,
        guild_roles: spec_cache_role_seq(v, guild_id, rs).guild_roles,
        ..v
    }));
}

/// Upserting a presence sequence changes only the presence tables.
pub proof fn lemma_presence_seq_frame(v: CacheView, guild_id: GuildId, ps: Seq<PresenceView>)
    ensures
        spec_cache_presence_seq(v, guild_id, ps) == (CacheView {
            presences: spec_cache_presence_seq(v, guild_id, ps).presences,
            guild_presences: spec_cache_presence_seq(v, guild_id, ps).guild_presences,
            ..v
        }),
    decreases ps.len(),
{
    if ps.len() > 0 {
        lemma_presence_seq_frame(
            spec_cache_presence(v, guild_id, ps.first()),
            guild_id,
            ps.drop_first(),
        );
    }
    assert(spec_cache_presence_seq(v, guild_id, ps) =~= (CacheView {
        presences: spec_cache_presence_seq(v, guild_id, ps).presences,
        guild_presences: spec_cache_presence_seq(v, guild_id, ps).guild_presences,
        ..v
    }));
}

/// Upserting a stage-instance sequence changes only the stage tables.
pub proof fn lemma_stage_seq_frame(v: CacheView, guild_id: GuildId, ss: Seq<StageInstanceView>)
    ensures
        spec_cache_stage_instance_seq(v, guild_id, ss) == (CacheView {
            stage_instances: spec_cache_stage_instance_seq(v, guild_id, ss).stage_instances,
            guild_stage_instances: spec_cache_stage_instance_seq(
                v,
                guild_id,
                ss,
            ).guild_stage_instances,
            ..v
        }),
    decreases ss.len(),
{
    if ss.len() > 0 {
        lemma_stage_seq_frame(
            spec_cache_stage_instance(v, guild_id, ss.first()),
            guild_id,
            ss.drop_first(),
        );
    }
    assert(spec_cache_stage_instance_seq(v, guild_id, ss) =~= (CacheView {
        stage_instances: spec_cache_stage_instance_seq(v, guild_id, ss).stage_instances,
        guild_stage_instances: spec_cache_stage_instance_seq(v, guild_id, ss).guild_stage_instances,
        ..v
    }));
}

/// Applying a voice-state sequence changes only the voice tables.
pub proof fn lemma_voice_seq_frame(v: CacheView, ss: Seq<VoiceStateView>)
    ensures
        spec_cache_voice_state_seq(v, ss) == (CacheView {
            voice_states: spec_cache_voice_state_seq(v, ss).voice_states,
            voice_state_channels: spec_cache_voice_state_seq(v, ss).voice_state_channels,
            voice_state_guilds: spec_cache_voice_state_seq(v, ss).voice_state_guilds,
            ..v
        }),
    decreases ss.len(),
{
    if ss.len() > 0 {
        lemma_voice_seq_frame(spec_cache_voice_state(v, ss.first()), ss.drop_first());
    }
    assert(spec_cache_voice_state_seq(v, ss) =~= (CacheView {
        voice_states: spec_cache_voice_state_seq(v, ss).voice_states,
        voice_state_channels: spec_cache_voice_state_seq(v, ss).voice_state_channels,
        voice_state_guilds: spec_cache_voice_state_seq(v, ss).voice_state_guilds,
        ..v
    }));
}

/// Upserting a channel sequence preserves channel coherence, as long as no
/// incoming channel is currently stored under a different owning guild.
pub proof fn lemma_channel_seq_preserves_coherence(
    v: CacheView,
    guild_id: GuildId,
    cs: Seq<GuildChannelView>,
)
    requires
        channels_coherent(v),
        forall|i: int|
            0 <= i < cs.len() ==> (v.channels_guild.contains_key(#[trigger] cs[i].id)
                ==> v.channels_guild[cs[i].id].guild_id == guild_id),
    ensures
        channels_coherent(spec_cache_guild_channel_seq(v, guild_id, cs)),
    decreases cs.len(),
{
    if cs.len() > 0 {
        let v1 = spec_cache_guild_channel(v, guild_id, cs.first());
        assert(v.channels_guild.contains_key(cs[0].id) ==> v.channels_guild[cs[0].id].guild_id
            == guild_id);
        lemma_cache_guild_channel_preserves_coherence(v, guild_id, cs.first());
        assert forall|i: int|
            0 <= i < cs.drop_first().len() implies (v1.channels_guild.contains_key(
            #[trigger] cs.drop_first()[i].id,
        ) ==> v1.channels_guild[cs.drop_first()[i].id].guild_id == guild_id) by {
            assert(cs.drop_first()[i] == cs[i + 1]);
            assert(v.channels_guild.contains_key(cs[i + 1].id)
                ==> v.channels_guild[cs[i + 1].id].guild_id == guild_id);
        }
        lemma_channel_seq_preserves_coherence(v1, guild_id, cs.drop_first());
    }
}

/// Upserting a role sequence preserves role coherence, as long as no
/// incoming role is currently stored under a different owning guild.
pub proof fn lemma_role_seq_preserves_coherence(v: CacheView, guild_id: GuildId, rs: Seq<RoleView>)
    requires
        roles_coherent(v),
        forall|i: int|
            0 <= i < rs.len() ==> (v.roles.contains_key(#[trigger] rs[i].id)
                ==> v.roles[rs[i].id].guild_id == guild_id),
    ensures
        roles_coherent(spec_cache_role_seq(v, guild_id, rs)),
    decreases rs.len(),
{
    if rs.len() > 0 {
        let v1 = spec_cache_role(v, guild_id, rs.first());
        assert(v.roles.contains_key(rs[0].id) ==> v.roles[rs[0].id].guild_id == guild_id);
        lemma_cache_role_preserves_coherence(v, guild_id, rs.first());
        assert forall|i: int|
            0 <= i < rs.drop_first().len() implies (v1.roles.contains_key(
            #[trigger] rs.drop_first()[i].id,
        ) ==> v1.roles[rs.drop_first()[i].id].guild_id == guild_id) by {
            assert(rs.drop_first()[i] == rs[i + 1]);
            assert(v.roles.contains_key(rs[i + 1].id) ==> v.roles[rs[i + 1].id].guild_id
                == guild_id);
        }
        lemma_role_seq_preserves_coherence(v1, guild_id, rs.drop_first());
    }
}

/// Upserting a stage-instance sequence preserves stage coherence, as long as
/// no incoming instance is currently stored under a different owning guild.
pub proof fn lemma_stage_seq_preserves_coherence(
    v: CacheView,
    guild_id: GuildId,
    ss: Seq<StageInstanceView>,
)
    requires
        stage_instances_coherent(v),
        forall|i: int|
            0 <= i < ss.len() ==> (v.stage_instances.contains_key(#[trigger] ss[i].id)
                ==> v.stage_instances[ss[i].id].guild_id == guild_id),
    ensures
        stage_instances_coherent(spec_cache_stage_instance_seq(v, guild_id, ss)),
    decreases ss.len(),
{
    if ss.len() > 0 {
        let v1 = spec_cache_stage_instance(v, guild_id, ss.first());
        assert(v.stage_instances.contains_key(ss[0].id) ==> v.stage_instances[ss[0].id].guild_id
            == guild_id);
        lemma_cache_stage_instance_preserves_coherence(v, guild_id, ss.first());
        assert forall|i: int|
            0 <= i < ss.drop_first().len() implies (v1.stage_instances.contains_key(
            #[trigger] ss.drop_first()[i].id,
        ) ==> v1.stage_instances[ss.drop_first()[i].id].guild_id == guild_id) by {
            assert(ss.drop_first()[i] == ss[i + 1]);
            assert(v.stage_instances.contains_key(ss[i + 1].id)
                ==> v.stage_instances[ss[i + 1].id].guild_id == guild_id);
        }
        lemma_stage_seq_preserves_coherence(v1, guild_id, ss.drop_first());
    }
}

/// Upserting a presence sequence preserves presence coherence.
pub proof fn lemma_presence_seq_preserves_coherence(
    v: CacheView,
    guild_id: GuildId,
    ps: Seq<PresenceView>,
)
    requires
        presences_coherent(v),
    ensures
        presences_coherent(spec_cache_presence_seq(v, guild_id, ps)),
    decreases ps.len(),
{
    if ps.len() > 0 {
        lemma_cache_presence_preserves_coherence(v, guild_id, ps.first());
        lemma_presence_seq_preserves_coherence(
            spec_cache_presence(v, guild_id, ps.first()),
            guild_id,
            ps.drop_first(),
        );
    }
}

/// A category whose primary table and index are untouched stays coherent.
pub proof fn lemma_frame_coherence(v: CacheView, r: CacheView)
    requires
        all_indices_coherent(v),
    ensures
        (r.roles == v.roles && r.guild_roles == v.guild_roles) ==> roles_coherent(r),
        (r.channels_guild == v.channels_guild && r.guild_channels == v.guild_channels)
            ==> channels_coherent(r),
        (r.emojis == v.emojis && r.guild_emojis == v.guild_emojis) ==> emojis_coherent(r),
        (r.stage_instances == v.stage_instances && r.guild_stage_instances
            == v.guild_stage_instances) ==> stage_instances_coherent(r),
        (r.integrations == v.integrations && r.guild_integrations == v.guild_integrations)
            ==> integrations_coherent(r),
        (r.members == v.members && r.guild_members == v.guild_members) ==> members_coherent(r),
        (r.presences == v.presences && r.guild_presences == v.guild_presences)
            ==> presences_coherent(r),
{
    if r.roles == v.roles && r.guild_roles == v.guild_roles {
        assert forall|g: GuildId, x: RoleId| #[trigger]
            index_set(r.guild_roles, g).contains(x) <==> (r.roles.contains_key(x)
                && r.roles[x].guild_id == g) by {
            assert(index_set(v.guild_roles, g).contains(x) <==> (v.roles.contains_key(x)
                && v.roles[x].guild_id == g));
        }
    }
    if r.channels_guild == v.channels_guild && r.guild_channels == v.guild_channels {
        assert forall|g: GuildId, x: ChannelId| #[trigger]
            index_set(r.guild_channels, g).contains(x) <==> (r.channels_guild.contains_key(x)
                && r.channels_guild[x].guild_id == g) by {
            assert(index_set(v.guild_channels, g).contains(x) <==> (v.channels_guild.contains_key(
                x,
            ) && v.channels_guild[x].guild_id == g));
        }
    }
    if r.emojis == v.emojis && r.guild_emojis == v.guild_emojis {
        assert forall|g: GuildId, x: EmojiId| #[trigger]
            index_set(r.guild_emojis, g).contains(x) <==> (r.emojis.contains_key(x)
                && r.emojis[x].guild_id == g) by {
            assert(index_set(v.guild_emojis, g).contains(x) <==> (v.emojis.contains_key(x)
                && v.emojis[x].guild_id == g));
        }
    }
    if r.stage_instances == v.stage_instances && r.guild_stage_instances
        == v.guild_stage_instances {
        assert forall|g: GuildId, x: StageId| #[trigger]
            index_set(r.guild_stage_instances, g).contains(x) <==> (r.stage_instances.contains_key(
                x,
            ) && r.stage_instances[x].guild_id == g) by {
            assert(index_set(v.guild_stage_instances, g).contains(x) <==> (
            v.stage_instances.contains_key(x) && v.stage_instances[x].guild_id == g));
        }
    }
    if r.integrations == v.integrations && r.guild_integrations == v.guild_integrations {
        assert forall|g: GuildId, x: IntegrationId| #[trigger]
            index_set(r.guild_integrations, g).contains(x) <==> r.integrations.contains_key(
                IntegrationKey { guild_id: g, integration_id: x },
            ) by {
            assert(index_set(v.guild_integrations, g).contains(x) <==> v.integrations.contains_key(
                IntegrationKey { guild_id: g, integration_id: x },
            ));
        }
    }
    if r.members == v.members && r.guild_members == v.guild_members {
        assert forall|g: GuildId, x: UserId| #[trigger]
            index_set(r.guild_members, g).contains(x) <==> r.members.contains_key(
                MemberKey { guild_id: g, user_id: x },
            ) by {
            assert(index_set(v.guild_members, g).contains(x) <==> v.members.contains_key(
                MemberKey { guild_id: g, user_id: x },
            ));
        }
    }
    if r.presences == v.presences && r.guild_presences == v.guild_presences {
        assert forall|g: GuildId, x: UserId| #[trigger]
            index_set(r.guild_presences, g).contains(x) <==> r.presences.contains_key(
                MemberKey { guild_id: g, user_id: x },
            ) by {
            assert(index_set(v.guild_presences, g).contains(x) <==> v.presences.contains_key(
                MemberKey { guild_id: g, user_id: x },
            ));
        }
    }
}

/// Index/primary coherence after any sequence of mutations: every dispatched
/// event that respects current ownership — every event but a whole-guild
/// snapshot, which wholesale-resets index containers — preserves coherence
/// of every guild-scoped category at once.
pub proof fn lemma_update_preserves_coherence(v: CacheView, e: Event)
    requires
        all_indices_coherent(v),
        event_respects_ownership(v, e),
    ensures
        all_indices_coherent(spec_update(v, e)),
{
    let r = spec_update(v, e);
    lemma_frame_coherence(v, r);
    match e {
        Event::ChannelCreate(c) => {
            if wants_resource(v, ResourceType::Channel) {
                match c.guild_id {
                    Some(guild_id) => {
                        lemma_cache_guild_channel_preserves_coherence(v, guild_id, c@);
                    },
                    None => {},
                }
            }
        },
        Event::ChannelDelete(channel_id) => {
            if wants_resource(v, ResourceType::Channel) {
                lemma_delete_guild_channel_preserves_coherence(v, channel_id);
            }
        },
        Event::ChannelUpdate(c) => {
            if wants_resource(v, ResourceType::Channel) {
                match c.guild_id {
                    Some(guild_id) => {
                        lemma_cache_guild_channel_preserves_coherence(v, guild_id, c@);
                    },
                    None => {},
                }
            }
        },
        Event::GroupCreate(_) => {},
        Event::GroupDelete(_) => {},
        Event::GuildCreate(_) => {},
        Event::GuildDelete { guild_id: _, unavailable: _ } => {},
        Event::GuildEmojisUpdate { guild_id, emojis } => {
            if wants_resource(v, ResourceType::Emoji) {
                let es = emoji_views(emojis@);
                assert forall|i: int|
                    0 <= i < es.len() implies (v.emojis.contains_key(#[trigger] es[i].id)
                    ==> v.emojis[es[i].id].guild_id == guild_id) by {
                    assert(es[i] == emojis@[i]@);
                    assert(v.emojis.contains_key(emojis@[i].id) ==> v.emojis[emojis@[i].id].guild_id
                        == guild_id);
                }
                lemma_cache_emojis_preserves_coherence(v, guild_id, es);
                lemma_emoji_refresh_frame(v, guild_id, es);
            }
        },
        Event::GuildUpdate(_) => {},
        Event::IntegrationCreate { guild_id, integration } => {
            if wants_resource(v, ResourceType::Integration) {
                lemma_cache_integration_preserves_coherence(v, guild_id, integration@);
            }
        },
        Event::IntegrationDelete { guild_id, integration_id } => {
            if wants_resource(v, ResourceType::Integration) {
                lemma_delete_integration_preserves_coherence(v, guild_id, integration_id);
            }
        },
        Event::IntegrationUpdate { guild_id, integration } => {
            if wants_resource(v, ResourceType::Integration) {
                lemma_cache_integration_preserves_coherence(v, guild_id, integration@);
            }
        },
        Event::MemberAdd { guild_id, member } => {
            if wants_resource(v, ResourceType::Member) {
                lemma_cache_member_preserves_coherence(v, guild_id, member@);
                lemma_cache_user_frame(v, member@.user, Some(guild_id));
            }
        },
        Event::MemberChunk { guild_id, members } => {
            if wants_resource(v, ResourceType::Member) {
                lemma_cache_member_seq_preserves_coherence(v, guild_id, member_views(members@));
                lemma_member_seq_frame(v, guild_id, member_views(members@));
            }
        },
        Event::MemberRemove { guild_id, user } => {
            if wants_resource(v, ResourceType::Member) {
                lemma_member_remove_preserves_coherence(v, guild_id, user.id);
            }
        },
        Event::MemberUpdate { guild_id, member } => {
            if wants_resource(v, ResourceType::Member) {
                lemma_cache_member_preserves_coherence(v, guild_id, member@);
                lemma_cache_user_frame(v, member@.user, Some(guild_id));
            }
        },
        Event::MessageCreate(_) => {},
        Event::MessageDelete { channel_id: _, message_id: _ } => {},
        Event::PresenceUpdate(presence) => {
            if wants_resource(v, ResourceType::Presence) {
                lemma_cache_presence_preserves_coherence(v, presence.guild_id, presence@);
            }
        },
        Event::PrivateChannelCreate(_) => {},
        Event::PrivateChannelDelete(_) => {},
        Event::Resumed => {},
        Event::RoleCreate { guild_id, role } => {
            if wants_resource(v, ResourceType::Role) {
                lemma_cache_role_preserves_coherence(v, guild_id, role@);
            }
        },
        Event::RoleDelete { guild_id: _, role_id } => {
            if wants_resource(v, ResourceType::Role) {
                lemma_delete_role_preserves_coherence(v, role_id);
            }
        },
        Event::RoleUpdate { guild_id, role } => {
            if wants_resource(v, ResourceType::Role) {
                lemma_cache_role_preserves_coherence(v, guild_id, role@);
            }
        },
        Event::StageInstanceCreate(stage_instance) => {
            if wants_resource(v, ResourceType::StageInstance) {
                lemma_cache_stage_instance_preserves_coherence(
                    v,
                    stage_instance.guild_id,
                    stage_instance@,
                );
            }
        },
        Event::StageInstanceDelete(stage_instance) => {
            if wants_resource(v, ResourceType::StageInstance) {
                lemma_delete_stage_instance_preserves_coherence(v, stage_instance.id);
            }
        },
        Event::StageInstanceUpdate(stage_instance) => {
            if wants_resource(v, ResourceType::StageInstance) {
                lemma_cache_stage_instance_preserves_coherence(
                    v,
                    stage_instance.guild_id,
                    stage_instance@,
                );
            }
        },
        Event::UnavailableGuild { guild_id: _ } => {},
        Event::UserUpdate(_) => {},
        Event::VoiceStateUpdate(_) => {},
    }
}

/// A whole guild snapshot preserves coherence of every guild-scoped category
/// when the guild is fresh: none of its children are currently cached, and
/// none of the snapshot's children are cached under another guild. (A
/// repeated snapshot that lists fewer children than before resets the index
/// containers while stale primaries survive, so it is excluded.)
pub proof fn lemma_guild_create_fresh_preserves_coherence(v: CacheView, g: GuildView)
    requires
        all_indices_coherent(v),
        forall|c: ChannelId|
            v.channels_guild.contains_key(c) ==> (#[trigger] v.channels_guild[c]).guild_id != g.id,
        forall|e: EmojiId|
            v.emojis.contains_key(e) ==> (#[trigger] v.emojis[e]).guild_id != g.id,
        forall|r: RoleId| v.roles.contains_key(r) ==> (#[trigger] v.roles[r]).guild_id != g.id,
        forall|s: StageId|
            v.stage_instances.contains_key(s) ==> (#[trigger] v.stage_instances[s]).guild_id
                != g.id,
        forall|u: UserId|
            !(#[trigger] v.members.contains_key(MemberKey { guild_id: g.id, user_id: u })),
        forall|u: UserId|
            !(#[trigger] v.presences.contains_key(MemberKey { guild_id: g.id, user_id: u })),
        forall|i: int|
            0 <= i < g.channels.len() ==> !v.channels_guild.contains_key(
                (#[trigger] g.channels[i]).id,
            ),
        forall|i: int|
            0 <= i < g.roles.len() ==> !v.roles.contains_key((#[trigger] g.roles[i]).id),
        forall|i: int|
            0 <= i < g.emojis.len() ==> !v.emojis.contains_key((#[trigger] g.emojis[i]).id),
        forall|i: int|
            0 <= i < g.stage_instances.len() ==> !v.stage_instances.contains_key(
                (#[trigger] g.stage_instances[i]).id,
            ),
    ensures
        all_indices_coherent(spec_cache_guild(v, g)),
{
    // Channels.
    let va = if wants_resource(v, ResourceType::Channel) {
        CacheView { guild_channels: v.guild_channels.insert(g.id, Set::empty()), ..v }
    } else {
        v
    };
    let v1 = if wants_resource(v, ResourceType::Channel) {
        spec_cache_guild_channel_seq(va, g.id, g.channels)
    } else {
        v
    };
    if wants_resource(v, ResourceType::Channel) {
        lemma_frame_coherence(v, va);
        assert forall|g2: GuildId, c: ChannelId| #[trigger]
            index_set(va.guild_channels, g2).contains(c) <==> (va.channels_guild.contains_key(c)
                && va.channels_guild[c].guild_id == g2) by {
            assert(index_set(v.guild_channels, g2).contains(c) <==> (v.channels_guild.contains_key(
                c,
            ) && v.channels_guild[c].guild_id == g2));
            if v.channels_guild.contains_key(c) {
                assert(v.channels_guild[c].guild_id != g.id);
            }
        }
        assert(all_indices_coherent(va));
        lemma_channel_seq_preserves_coherence(va, g.id, g.channels);
        lemma_channel_seq_frame(va, g.id, g.channels);
        lemma_frame_coherence(va, v1);
    }
    assert(all_indices_coherent(v1));
    assert(v1.emojis == v.emojis);
    assert(v1.roles == v.roles);
    assert(v1.stage_instances == v.stage_instances);
    assert(v1.members == v.members);
    assert(v1.presences == v.presences);
    // Emojis.
    let vb = if wants_resource(v, ResourceType::Emoji) {
        CacheView { guild_emojis: v1.guild_emojis.insert(g.id, Set::empty()), ..v1 }
    } else {
        v1
    };
    let v2 = if wants_resource(v, ResourceType::Emoji) {
        spec_cache_emojis(vb, g.id, g.emojis)
    } else {
        v1
    };
    if wants_resource(v, ResourceType::Emoji) {
        lemma_frame_coherence(v1, vb);
        assert forall|g2: GuildId, e: EmojiId| #[trigger]
            index_set(vb.guild_emojis, g2).contains(e) <==> (vb.emojis.contains_key(e)
                && vb.emojis[e].guild_id == g2) by {
            assert(index_set(v1.guild_emojis, g2).contains(e) <==> (v1.emojis.contains_key(e)
                && v1.emojis[e].guild_id == g2));
            if v.emojis.contains_key(e) {
                assert(v.emojis[e].guild_id != g.id);
            }
        }
        assert(all_indices_coherent(vb));
        assert forall|i: int|
            0 <= i < g.emojis.len() implies (vb.emojis.contains_key(#[trigger] g.emojis[i].id)
            ==> vb.emojis[g.emojis[i].id].guild_id == g.id) by {
            assert(!v.emojis.contains_key(g.emojis[i].id));
        }
        lemma_cache_emojis_preserves_coherence(vb, g.id, g.emojis);
        lemma_emoji_refresh_frame(vb, g.id, g.emojis);
        lemma_frame_coherence(vb, v2);
    }
    assert(all_indices_coherent(v2));
    assert(v2.roles == v.roles);
    assert(v2.stage_instances == v.stage_instances);
    assert(v2.members == v.members);
    assert(v2.presences == v.presences);
    // Members.
    let vc = if wants_resource(v, ResourceType::Member) {
        CacheView { guild_members: v2.guild_members.insert(g.id, Set::empty()), ..v2 }
    } else {
        v2
    };
    let v3 = if wants_resource(v, ResourceType::Member) {
        spec_cache_member_seq(vc, g.id, g.members)
    } else {
        v2
    };
    if wants_resource(v, ResourceType::Member) {
        lemma_frame_coherence(v2, vc);
        assert forall|g2: GuildId, u: UserId| #[trigger]
            index_set(vc.guild_members, g2).contains(u) <==> vc.members.contains_key(
                MemberKey { guild_id: g2, user_id: u },
            ) by {
            assert(index_set(v2.guild_members, g2).contains(u) <==> v2.members.contains_key(
                MemberKey { guild_id: g2, user_id: u },
            ));
            if g2 == g.id {
                assert(!v.members.contains_key(MemberKey { guild_id: g.id, user_id: u }));
            }
        }
        assert(all_indices_coherent(vc));
        lemma_cache_member_seq_preserves_coherence(vc, g.id, g.members);
        lemma_member_seq_frame(vc, g.id, g.members);
        lemma_frame_coherence(vc, v3);
    }
    assert(all_indices_coherent(v3));
    assert(v3.roles == v.roles);
    assert(v3.stage_instances == v.stage_instances);
    assert(v3.presences == v.presences);
    // Presences.
    let vd = if wants_resource(v, ResourceType::Presence) {
        CacheView { guild_presences: v3.guild_presences.insert(g.id, Set::empty()), ..v3 }
    } else {
        v3
    };
    let v4 = if wants_resource(v, ResourceType::Presence) {
        spec_cache_presence_seq(vd, g.id, g.presences)
    } else {
        v3
    };
    if wants_resource(v, ResourceType::Presence) {
        lemma_frame_coherence(v3, vd);
        assert forall|g2: GuildId, u: UserId| #[trigger]
            index_set(vd.guild_presences, g2).contains(u) <==> vd.presences.contains_key(
                MemberKey { guild_id: g2, user_id: u },
            ) by {
            assert(index_set(v3.guild_presences, g2).contains(u) <==> v3.presences.contains_key(
                MemberKey { guild_id: g2, user_id: u },
            ));
            if g2 == g.id {
                assert(!v.presences.contains_key(MemberKey { guild_id: g.id, user_id: u }));
            }
        }
        assert(all_indices_coherent(vd));
        lemma_presence_seq_preserves_coherence(vd, g.id, g.presences);
        lemma_presence_seq_frame(vd, g.id, g.presences);
        lemma_frame_coherence(vd, v4);
    }
    assert(all_indices_coherent(v4));
    assert(v4.roles == v.roles);
    assert(v4.stage_instances == v.stage_instances);
    // Roles.
    let ve = if wants_resource(v, ResourceType::Role) {
        CacheView { guild_roles: v4.guild_roles.insert(g.id, Set::empty()), ..v4 }
    } else {
        v4
    };
    let v5 = if wants_resource(v, ResourceType::Role) {
        spec_cache_role_seq(ve, g.id, g.roles)
    } else {
        v4
    };
    if wants_resource(v, ResourceType::Role) {
        lemma_frame_coherence(v4, ve);
        assert forall|g2: GuildId, x: RoleId| #[trigger]
            index_set(ve.guild_roles, g2).contains(x) <==> (ve.roles.contains_key(x)
                && ve.roles[x].guild_id == g2) by {
            assert(index_set(v4.guild_roles, g2).contains(x) <==> (v4.roles.contains_key(x)
                && v4.roles[x].guild_id == g2));
            if v.roles.contains_key(x) {
                assert(v.roles[x].guild_id != g.id);
            }
        }
        assert(all_indices_coherent(ve));
        assert forall|i: int|
            0 <= i < g.roles.len() implies (ve.roles.contains_key(#[trigger] g.roles[i].id)
            ==> ve.roles[g.roles[i].id].guild_id == g.id) by {
            assert(!v.roles.contains_key(g.roles[i].id));
        }
        lemma_role_seq_preserves_coherence(ve, g.id, g.roles);
        lemma_role_seq_frame(ve, g.id, g.roles);
        lemma_frame_coherence(ve, v5);
    }
    assert(all_indices_coherent(v5));
    assert(v5.stage_instances == v.stage_instances);
    // Voice states.
    let vf = if wants_resource(v, ResourceType::VoiceState) {
        CacheView { voice_state_guilds: v5.voice_state_guilds.insert(g.id, Set::empty()), ..v5 }
    } else {
        v5
    };
    let v6 = if wants_resource(v, ResourceType::VoiceState) {
        spec_cache_voice_state_seq(vf, g.voice_states)
    } else {
        v5
    };
    if wants_resource(v, ResourceType::VoiceState) {
        lemma_frame_coherence(v5, vf);
        assert(all_indices_coherent(vf));
        lemma_voice_seq_frame(vf, g.voice_states);
        lemma_frame_coherence(vf, v6);
    }
    assert(all_indices_coherent(v6));
    assert(v6.stage_instances == v.stage_instances);
    // Stage instances.
    let vg = if wants_resource(v, ResourceType::StageInstance) {
        CacheView {
            guild_stage_instances: v6.guild_stage_instances.insert(g.id, Set::empty()),
            ..v6
        }
    } else {
        v6
    };
    let v7 = if wants_resource(v, ResourceType::StageInstance) {
        spec_cache_stage_instance_seq(vg, g.id, g.stage_instances)
    } else {
        v6
    };
    if wants_resource(v, ResourceType::StageInstance) {
        lemma_frame_coherence(v6, vg);
        assert forall|g2: GuildId, x: StageId| #[trigger]
            index_set(vg.guild_stage_instances, g2).contains(x) <==> (
        vg.stage_instances.contains_key(x) && vg.stage_instances[x].guild_id == g2) by {
            assert(index_set(v6.guild_stage_instances, g2).contains(x) <==> (
            v6.stage_instances.contains_key(x) && v6.stage_instances[x].guild_id == g2));
            if v.stage_instances.contains_key(x) {
                assert(v.stage_instances[x].guild_id != g.id);
            }
        }
        assert(all_indices_coherent(vg));
        assert forall|i: int|
            0 <= i < g.stage_instances.len() implies (vg.stage_instances.contains_key(
            #[trigger] g.stage_instances[i].id,
        ) ==> vg.stage_instances[g.stage_instances[i].id].guild_id == g.id) by {
            assert(!v.stage_instances.contains_key(g.stage_instances[i].id));
        }
        lemma_stage_seq_preserves_coherence(vg, g.id, g.stage_instances);
        lemma_stage_seq_frame(vg, g.id, g.stage_instances);
        lemma_frame_coherence(vg, v7);
    }
    assert(all_indices_coherent(v7));
    lemma_frame_coherence(v7, spec_cache_guild(v, g));
    assert(spec_cache_guild(v, g) == (CacheView {
        unavailable_guilds: v7.unavailable_guilds.remove(g.id),
        guilds: v7.guilds.insert(g.id, crate::model::guild_to_cached(g)),
        ..v7
    }));
}


/// Under the voice invariant, a channel-scoped voice lookup materializes
/// exactly one record per connected user: as many states as the channel's
/// connected set has pairs.
pub proof fn lemma_voice_channel_states_complete(
    v: CacheView,
    channel_id: ChannelId,
    ks: Seq<MemberKey>,
    states: Seq<VoiceState>,
)
    requires
        voice_coherent(v),
        v.voice_state_channels.contains_key(channel_id),
        v.voice_state_channels[channel_id].finite(),
        voice_states_for_keys(v, channel_id, ks, states),
    ensures
        states.len() == v.voice_state_channels[channel_id].len(),
{
    let set = v.voice_state_channels[channel_id];
    assert forall|k: MemberKey| set.contains(k) implies #[trigger] ks.contains(k) by {
        assert(index_set(v.voice_state_channels, channel_id).contains(k) <==> (
        v.voice_states.contains_key(k) && v.voice_states[k].channel_id == Some(channel_id)));
        assert(index_set(v.voice_state_channels, channel_id).contains(k));
    }
    assert forall|j: int| 0 <= j < ks.len() implies set.contains(#[trigger] ks[j]) by {
        assert(index_set(v.voice_state_channels, channel_id).contains(ks[j]));
    }
    assert(ks.to_set() =~= set) by {
        assert forall|k: MemberKey| ks.to_set().contains(k) implies set.contains(k) by {
            let j = choose|j: int| 0 <= j < ks.len() && ks[j] == k;
            assert(set.contains(ks[j]));
        }
    }
    ks.unique_seq_to_set();
}

} // verus!
