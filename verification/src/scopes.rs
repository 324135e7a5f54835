//! The secondary-index maintainer: change-aware upserts of guild-owned
//! entities that keep the owning scope's membership set in step with the
//! primary table, and the deletes that undo them. Deleting a scope itself
//! deliberately leaves its children untouched.

use crate::cache::index_set;
use crate::cache::CacheView;
use crate::cache::InMemoryCache;
use crate::ids::CacheKey;
use crate::ids::ChannelId;
use crate::ids::GuildId;
use crate::ids::IntegrationId;
use crate::ids::IntegrationKey;
use crate::ids::MemberKey;
use crate::ids::RoleId;
use crate::ids::StageId;
use crate::model::CachedPresence;
use crate::model::CurrentUser;
use crate::model::GuildChannel;
use crate::model::GuildChannelView;
use crate::model::GuildIntegration;
use crate::model::GuildIntegrationView;
use crate::model::GuildItem;
use crate::model::GuildItemView;
use crate::model::Group;
use crate::model::Presence;
use crate::model::PresenceView;
use crate::model::PrivateChannel;
use crate::model::Role;
use crate::model::RoleView;
use crate::model::StageInstance;
use crate::model::StageInstanceView;
use crate::model::ViewEq;
use crate::model::presence_user_id;
use crate::model::spec_presence_user_id;
use crate::store::IdSet;
use crate::store::Table;
use vstd::prelude::*;

verus! {

/// What a change-aware upsert of a guild-owned entity leaves in a primary
/// table: nothing, where an entry with the same key holds an equal value;
/// otherwise the value wrapped with its owning guild.
pub open spec fn spec_upsert_guild_item<K, V>(
    m: Map<K, GuildItemView<V>>,
    guild_id: GuildId,
    key: K,
    data: V,
) -> Map<K, GuildItemView<V>> {
    if m.contains_key(key) && m[key].data == data {
        m
    } else {
        m.insert(key, GuildItemView { data, guild_id })
    }
}

/// What removing one key from a scope's membership set leaves in the index:
/// the entry itself stays, even when its set becomes empty.
pub open spec fn spec_index_remove<S, K>(m: Map<S, Set<K>>, scope: S, key: K) -> Map<S, Set<K>> {
    if m.contains_key(scope) {
        m.insert(scope, m[scope].remove(key))
    } else {
        m
    }
}

/// What removing one key from a scope's membership set leaves in the index
/// when an emptied set is pruned away entirely.
pub open spec fn spec_index_remove_prune<S, K>(
    m: Map<S, Set<K>>,
    scope: S,
    key: K,
) -> Map<S, Set<K>> {
    if m.contains_key(scope) {
        if m[scope].remove(key) == Set::<K>::empty() {
            m.remove(scope)
        } else {
            m.insert(scope, m[scope].remove(key))
        }
    } else {
        m
    }
}

/// Change-aware upsert of a guild-owned entity into its primary table: a
/// value equal to the stored one is a no-op, so a redundant retransmission
/// triggers no index work at the call sites.
pub fn upsert_guild_item<K: CacheKey, V: View + ViewEq>(
    map: &mut Table<K, GuildItem<V>>,
    guild_id: GuildId,
    key: K,
    value: V,
)
    ensures
        final(map)@ == spec_upsert_guild_item(old(map)@, guild_id, key, value@),
{
    let skip = match map.get(&key) {
        Some(item) => item.data.view_eq(&value),
        None => false,
    };
    if !skip {
        map.insert(key, GuildItem { data: value, guild_id });
    }
}

/// Plain upsert of an entity that carries no owning scope.
pub fn upsert_item<K: CacheKey, V: View>(map: &mut Table<K, V>, k: K, v: V)
    ensures
        final(map)@ == old(map)@.insert(k, v@),
{
    map.insert(k, v);
}

/// Insert a key into a scope's membership set, creating the set if the scope
/// has none yet.
pub fn index_insert<S: CacheKey, K: CacheKey>(table: &mut Table<S, IdSet<K>>, scope: S, key: K)
    ensures
        final(table)@ == old(table)@.insert(scope, index_set(old(table)@, scope).insert(key)),
{
    let mut set = match table.remove(&scope) {
        Some(s) => s,
        None => IdSet::new(),
    };
    set.insert(key);
    table.insert(scope, set);
    proof {
        assert(final(table)@ =~= old(table)@.insert(
            scope,
            index_set(old(table)@, scope).insert(key),
        ));
    }
}

/// Remove a key from a scope's membership set, keeping the set's container
/// even when it becomes empty.
pub fn index_remove<S: CacheKey, K: CacheKey>(table: &mut Table<S, IdSet<K>>, scope: S, key: &K)
    ensures
        final(table)@ == spec_index_remove(old(table)@, scope, *key),
{
    match table.remove(&scope) {
        Some(mut set) => {
            set.remove(key);
            table.insert(scope, set);
            proof {
                assert(final(table)@ =~= spec_index_remove(old(table)@, scope, *key));
            }
        },
        None => {},
    }
}

/// Remove a key from a scope's membership set, pruning the container away
/// entirely when it becomes empty.
pub fn index_remove_prune<S: CacheKey, K: CacheKey>(
    table: &mut Table<S, IdSet<K>>,
    scope: S,
    key: &K,
)
    ensures
        final(table)@ == spec_index_remove_prune(old(table)@, scope, *key),
{
    match table.remove(&scope) {
        Some(mut set) => {
            set.remove(key);
            if set.is_empty() {
                proof {
                    assert(final(table)@ =~= spec_index_remove_prune(old(table)@, scope, *key));
                }
            } else {
                table.insert(scope, set);
                proof {
                    assert(final(table)@ =~= spec_index_remove_prune(old(table)@, scope, *key));
                }
            }
        },
        None => {},
    }
}

/// What caching a role leaves in the cache.
pub open spec fn spec_cache_role(v: CacheView, guild_id: GuildId, role: RoleView) -> CacheView {
    CacheView {
        guild_roles: v.guild_roles.insert(
            guild_id,
            index_set(v.guild_roles, guild_id).insert(role.id),
        ),
        roles: spec_upsert_guild_item(v.roles, guild_id, role.id, role),
        ..v
    }
}

/// What deleting a role leaves in the cache: the primary entry goes, and the
/// key leaves the recorded owning guild's set.
pub open spec fn spec_delete_role(v: CacheView, role_id: RoleId) -> CacheView {
    if v.roles.contains_key(role_id) {
        CacheView {
            roles: v.roles.remove(role_id),
            guild_roles: spec_index_remove(v.guild_roles, v.roles[role_id].guild_id, role_id),
            ..v
        }
    } else {
        v
    }
}

/// What caching a stage instance leaves in the cache.
pub open spec fn spec_cache_stage_instance(
    v: CacheView,
    guild_id: GuildId,
    stage: StageInstanceView,
) -> CacheView {
    CacheView {
        guild_stage_instances: v.guild_stage_instances.insert(
            guild_id,
            index_set(v.guild_stage_instances, guild_id).insert(stage.id),
        ),
        stage_instances: spec_upsert_guild_item(v.stage_instances, guild_id, stage.id, stage),
        ..v
    }
}

/// What deleting a stage instance leaves in the cache.
pub open spec fn spec_delete_stage_instance(v: CacheView, stage_id: StageId) -> CacheView {
    if v.stage_instances.contains_key(stage_id) {
        CacheView {
            stage_instances: v.stage_instances.remove(stage_id),
            guild_stage_instances: spec_index_remove(
                v.guild_stage_instances,
                v.stage_instances[stage_id].guild_id,
                stage_id,
            ),
            ..v
        }
    } else {
        v
    }
}

/// What caching an integration leaves in the cache.
pub open spec fn spec_cache_integration(
    v: CacheView,
    guild_id: GuildId,
    integration: GuildIntegrationView,
) -> CacheView {
    CacheView {
        guild_integrations: v.guild_integrations.insert(
            guild_id,
            index_set(v.guild_integrations, guild_id).insert(integration.id),
        ),
        integrations: spec_upsert_guild_item(
            v.integrations,
            guild_id,
            IntegrationKey { guild_id, integration_id: integration.id },
            integration,
        ),
        ..v
    }
}

/// What deleting an integration leaves in the cache.
pub open spec fn spec_delete_integration(
    v: CacheView,
    guild_id: GuildId,
    integration_id: IntegrationId,
) -> CacheView {
    if v.integrations.contains_key(IntegrationKey { guild_id, integration_id }) {
        CacheView {
            integrations: v.integrations.remove(IntegrationKey { guild_id, integration_id }),
            guild_integrations: spec_index_remove(v.guild_integrations, guild_id, integration_id),
            ..v
        }
    } else {
        v
    }
}

/// A guild channel as stored: the owning-guild back-reference is injected by
/// the cache, never trusted from the input.
pub open spec fn channel_with_guild(c: GuildChannelView, guild_id: GuildId) -> GuildChannelView {
    GuildChannelView { guild_id: Some(guild_id), ..c }
}

/// What caching a guild channel leaves in the cache.
pub open spec fn spec_cache_guild_channel(
    v: CacheView,
    guild_id: GuildId,
    c: GuildChannelView,
) -> CacheView {
    CacheView {
        guild_channels: v.guild_channels.insert(
            guild_id,
            index_set(v.guild_channels, guild_id).insert(c.id),
        ),
        channels_guild: spec_upsert_guild_item(
            v.channels_guild,
            guild_id,
            c.id,
            channel_with_guild(c, guild_id),
        ),
        ..v
    }
}

/// What deleting a guild channel leaves in the cache.
pub open spec fn spec_delete_guild_channel(v: CacheView, channel_id: ChannelId) -> CacheView {
    if v.channels_guild.contains_key(channel_id) {
        CacheView {
            channels_guild: v.channels_guild.remove(channel_id),
            guild_channels: spec_index_remove(
                v.guild_channels,
                v.channels_guild[channel_id].guild_id,
                channel_id,
            ),
            ..v
        }
    } else {
        v
    }
}

/// What caching a presence leaves in the cache: the record is normalized to
/// a user-id back-reference, and the user joins the guild's presence set.
pub open spec fn spec_cache_presence(v: CacheView, guild_id: GuildId, p: PresenceView) -> CacheView {
    let user_id = spec_presence_user_id(p.user);
    CacheView {
        guild_presences: v.guild_presences.insert(
            guild_id,
            index_set(v.guild_presences, guild_id).insert(user_id),
        ),
        presences: v.presences.insert(
            MemberKey { guild_id, user_id },
            CachedPresence { user_id, guild_id, status: p.status },
        ),
        ..v
    }
}

impl InMemoryCache {
    /// Upsert a role under its owning guild.
    pub fn cache_role(&mut self, guild_id: GuildId, role: Role)
        ensures
            final(self)@ == spec_cache_role(old(self)@, guild_id, role@),
    {
        let role_id = role.id;
        index_insert(&mut self.guild_roles, guild_id, role_id);
        upsert_guild_item(&mut self.roles, guild_id, role_id, role);
        proof {
            assert(self@ =~= spec_cache_role(old(self)@, guild_id, role@));
        }
    }

    /// Delete a role; its entry leaves the owning guild's role set too.
    pub fn delete_role(&mut self, role_id: RoleId)
        ensures
            final(self)@ == spec_delete_role(old(self)@, role_id),
    {
        match self.roles.remove(&role_id) {
            Some(item) => {
                index_remove(&mut self.guild_roles, item.guild_id, &role_id);
            },
            None => {},
        }
        proof {
            assert(self@ =~= spec_delete_role(old(self)@, role_id));
        }
    }

    /// Upsert a stage instance under its owning guild.
    pub fn cache_stage_instance(&mut self, guild_id: GuildId, stage_instance: StageInstance)
        ensures
            final(self)@ == spec_cache_stage_instance(old(self)@, guild_id, stage_instance@),
    {
        let stage_id = stage_instance.id;
        index_insert(&mut self.guild_stage_instances, guild_id, stage_id);
        upsert_guild_item(&mut self.stage_instances, guild_id, stage_id, stage_instance);
        proof {
            assert(self@ =~= spec_cache_stage_instance(old(self)@, guild_id, stage_instance@));
        }
    }

    /// Delete a stage instance; it leaves the owning guild's set too.
    pub fn delete_stage_instance(&mut self, stage_id: StageId)
        ensures
            final(self)@ == spec_delete_stage_instance(old(self)@, stage_id),
    {
        match self.stage_instances.remove(&stage_id) {
            Some(item) => {
                index_remove(&mut self.guild_stage_instances, item.guild_id, &stage_id);
            },
            None => {},
        }
        proof {
            assert(self@ =~= spec_delete_stage_instance(old(self)@, stage_id));
        }
    }

    /// Upsert an integration under its owning guild.
    pub fn cache_integration(&mut self, guild_id: GuildId, integration: GuildIntegration)
        ensures
            final(self)@ == spec_cache_integration(old(self)@, guild_id, integration@),
    {
        let integration_id = integration.id;
        index_insert(&mut self.guild_integrations, guild_id, integration_id);
        upsert_guild_item(
            &mut self.integrations,
            guild_id,
            IntegrationKey { guild_id, integration_id },
            integration,
        );
        proof {
            assert(self@ =~= spec_cache_integration(old(self)@, guild_id, integration@));
        }
    }

    /// Delete an integration; it leaves the guild's integration set too.
    pub fn delete_integration(&mut self, guild_id: GuildId, integration_id: IntegrationId)
        ensures
            final(self)@ == spec_delete_integration(old(self)@, guild_id, integration_id),
    {
        match self.integrations.remove(&(IntegrationKey { guild_id, integration_id })) {
            Some(_item) => {
                index_remove(&mut self.guild_integrations, guild_id, &integration_id);
            },
            None => {},
        }
        proof {
            assert(self@ =~= spec_delete_integration(old(self)@, guild_id, integration_id));
        }
    }

    /// Upsert a guild channel, injecting the owning-guild back-reference.
    pub fn cache_guild_channel(&mut self, guild_id: GuildId, channel: GuildChannel)
        ensures
            final(self)@ == spec_cache_guild_channel(old(self)@, guild_id, channel@),
    {
        let ghost cv = channel@;
        let mut channel = channel;
        channel.guild_id = Some(guild_id);
        let channel_id = channel.id;
        index_insert(&mut self.guild_channels, guild_id, channel_id);
        upsert_guild_item(&mut self.channels_guild, guild_id, channel_id, channel);
        proof {
            assert(self@ =~= spec_cache_guild_channel(old(self)@, guild_id, cv));
        }
    }

    /// Delete a guild channel; it leaves the owning guild's channel set too.
    pub fn delete_guild_channel(&mut self, channel_id: ChannelId)
        ensures
            final(self)@ == spec_delete_guild_channel(old(self)@, channel_id),
    {
        match self.channels_guild.remove(&channel_id) {
            Some(item) => {
                index_remove(&mut self.guild_channels, item.guild_id, &channel_id);
            },
            None => {},
        }
        proof {
            assert(self@ =~= spec_delete_guild_channel(old(self)@, channel_id));
        }
    }

    /// Upsert a private channel.
    pub fn cache_private_channel(&mut self, private_channel: PrivateChannel)
        ensures
            final(self)@ == (CacheView {
                channels_private: old(self)@.channels_private.insert(
                    private_channel.id,
                    private_channel@,
                ),
                ..old(self)@
            }),
    {
        let ghost pcv = private_channel@;
        let channel_id = private_channel.id;
        upsert_item(&mut self.channels_private, channel_id, private_channel);
        proof {
            assert(self@ =~= (CacheView {
                channels_private: old(self)@.channels_private.insert(channel_id, pcv),
                ..old(self)@
            }));
        }
    }

    /// Upsert a group.
    pub fn cache_group(&mut self, group: Group)
        ensures
            final(self)@ == (CacheView {
                groups: old(self)@.groups.insert(group.id, group@),
                ..old(self)@
            }),
    {
        let ghost gv = group@;
        let channel_id = group.id;
        upsert_item(&mut self.groups, channel_id, group);
        proof {
            assert(self@ =~= (CacheView {
                groups: old(self)@.groups.insert(channel_id, gv),
                ..old(self)@
            }));
        }
    }

    /// Delete a group.
    pub fn delete_group(&mut self, channel_id: ChannelId)
        ensures
            final(self)@ == (CacheView {
                groups: old(self)@.groups.remove(channel_id),
                ..old(self)@
            }),
    {
        let _removed = self.groups.remove(&channel_id);
        proof {
            assert(self@ =~= (CacheView { groups: old(self)@.groups.remove(channel_id), ..old(self)@ }));
        }
    }

    /// Mark a guild unavailable: the guild record leaves the cache, but its
    /// children stay and are pruned lazily or replaced by the next snapshot.
    pub fn unavailable_guild(&mut self, guild_id: GuildId)
        ensures
            final(self)@ == (CacheView {
                unavailable_guilds: old(self)@.unavailable_guilds.insert(guild_id),
                guilds: old(self)@.guilds.remove(guild_id),
                ..old(self)@
            }),
    {
        self.unavailable_guilds.insert(guild_id);
        let _removed = self.guilds.remove(&guild_id);
        proof {
            assert(self@ =~= (CacheView {
                unavailable_guilds: old(self)@.unavailable_guilds.insert(guild_id),
                guilds: old(self)@.guilds.remove(guild_id),
                ..old(self)@
            }));
        }
    }

    /// Replace the current-user slot.
    pub fn cache_current_user(&mut self, current_user: CurrentUser)
        ensures
            final(self)@ == (CacheView { current_user: Some(current_user@), ..old(self)@ }),
    {
        let ghost cu = current_user@;
        self.current_user = Some(current_user);
        proof {
            assert(self@ =~= (CacheView { current_user: Some(cu), ..old(self)@ }));
        }
    }

    /// Upsert a presence, normalized to a user-id back-reference.
    pub fn cache_presence(&mut self, guild_id: GuildId, presence: Presence)
        ensures
            final(self)@ == spec_cache_presence(old(self)@, guild_id, presence@),
    {
        let user_id = presence_user_id(&presence.user);
        index_insert(&mut self.guild_presences, guild_id, user_id);
        upsert_item(
            &mut self.presences,
            MemberKey { guild_id, user_id },
            CachedPresence { user_id, guild_id, status: presence.status },
        );
        proof {
            assert(self@ =~= spec_cache_presence(old(self)@, guild_id, presence@));
        }
    }
}

} // verus!
