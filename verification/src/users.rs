//! The user reference counter and the member upserts that feed it: one
//! canonical user record is shared across all guilds that currently see the
//! user, tagged with the set of guilds referencing it, and removed when that
//! set becomes empty.

use crate::cache::index_set;
use crate::cache::CacheView;
use crate::cache::InMemoryCache;
use crate::ids::GuildId;
use crate::ids::MemberKey;
use crate::ids::UserId;
use crate::model::cached_matches_interaction;
use crate::model::cached_matches_member;
use crate::model::cached_matches_partial;
use crate::model::clone_opt_str;
use crate::model::clone_role_ids;
use crate::model::member_to_cached;
use crate::model::CachedMember;
use crate::model::CachedMemberView;
use crate::model::InteractionMember;
use crate::model::InteractionMemberView;
use crate::model::Member;
use crate::model::MemberView;
use crate::model::PartialMember;
use crate::model::PartialMemberView;
use crate::model::User;
use crate::model::UserEntry;
use crate::model::UserEntryView;
use crate::model::UserView;
use crate::model::ViewEq;
use crate::scopes::index_insert;
use crate::scopes::index_remove;
use crate::scopes::spec_index_remove;
use crate::store::IdSet;
use vstd::prelude::*;

verus! {

/// What caching a user under an optional guild context leaves in the user
/// table. A record equal to the incoming value only grows its reference set;
/// a missing or different record is replaced, with the set seeded from the
/// guild context; without a guild context no new record is stored.
pub open spec fn spec_cache_user(v: CacheView, u: UserView, guild_id: Option<GuildId>) -> CacheView {
    if v.users.contains_key(u.id) && v.users[u.id].user == u {
        match guild_id {
            Some(g) => CacheView {
                users: v.users.insert(
                    u.id,
                    UserEntryView { user: v.users[u.id].user, guilds: v.users[u.id].guilds.insert(g) },
                ),
                ..v
            },
            None => v,
        }
    } else {
        match guild_id {
            Some(g) => CacheView {
                users: v.users.insert(
                    u.id,
                    UserEntryView { user: u, guilds: Set::empty().insert(g) },
                ),
                ..v
            },
            None => v,
        }
    }
}

/// What removing one guild's reference to a user leaves in the user table:
/// the guild leaves the reference set, and a record whose set becomes empty
/// is deleted.
pub open spec fn spec_remove_guild_reference(
    v: CacheView,
    user_id: UserId,
    guild_id: GuildId,
) -> CacheView {
    if v.users.contains_key(user_id) {
        if v.users[user_id].guilds.remove(guild_id) == Set::<GuildId>::empty() {
            CacheView { users: v.users.remove(user_id), ..v }
        } else {
            CacheView {
                users: v.users.insert(
                    user_id,
                    UserEntryView {
                        user: v.users[user_id].user,
                        guilds: v.users[user_id].guilds.remove(guild_id),
                    },
                ),
                ..v
            }
        }
    } else {
        v
    }
}

/// What caching a member leaves in the cache: a no-op when the stored
/// projection already agrees with the payload; otherwise the member's user is
/// cached under the guild, the projection is stored, and the user id joins
/// the guild's member set.
pub open spec fn spec_cache_member(v: CacheView, guild_id: GuildId, m: MemberView) -> CacheView {
    let key = MemberKey { guild_id, user_id: m.user.id };
    if v.members.contains_key(key) && cached_matches_member(v.members[key], m) {
        v
    } else {
        let v1 = spec_cache_user(v, m.user, Some(guild_id));
        CacheView {
            members: v1.members.insert(key, member_to_cached(guild_id, m)),
            guild_members: v1.guild_members.insert(
                guild_id,
                index_set(v1.guild_members, guild_id).insert(m.user.id),
            ),
            ..v1
        }
    }
}

/// The projection a partial-member payload stores for a guild and user.
pub open spec fn partial_to_cached(
    guild_id: GuildId,
    user_id: UserId,
    m: PartialMemberView,
) -> CachedMemberView {
    CachedMemberView {
        guild_id,
        user_id,
        roles: m.roles,
        nick: m.nick,
        joined_at: m.joined_at,
        premium_since: None,
        deaf: Some(m.deaf),
        mute: Some(m.mute),
        pending: false,
    }
}

/// What caching a partial member leaves in the cache: no user is cached, the
/// projection is stored and the user id joins the guild's member set.
pub open spec fn spec_cache_partial_member(
    v: CacheView,
    guild_id: GuildId,
    m: PartialMemberView,
    user_id: UserId,
) -> CacheView {
    let key = MemberKey { guild_id, user_id };
    if v.members.contains_key(key) && cached_matches_partial(v.members[key], m) {
        v
    } else {
        CacheView {
            guild_members: v.guild_members.insert(
                guild_id,
                index_set(v.guild_members, guild_id).insert(user_id),
            ),
            members: v.members.insert(key, partial_to_cached(guild_id, user_id, m)),
            ..v
        }
    }
}

/// The projection an interaction-member payload stores, inheriting the
/// deafen and mute flags of any record it replaces.
pub open spec fn interaction_to_cached(
    guild_id: GuildId,
    m: InteractionMemberView,
    deaf: Option<bool>,
    mute: Option<bool>,
) -> CachedMemberView {
    CachedMemberView {
        guild_id,
        user_id: m.id,
        roles: m.roles,
        nick: m.nick,
        joined_at: m.joined_at,
        premium_since: m.premium_since,
        deaf,
        mute,
        pending: false,
    }
}

/// What caching an interaction member leaves in the cache.
pub open spec fn spec_cache_interaction_member(
    v: CacheView,
    guild_id: GuildId,
    m: InteractionMemberView,
) -> CacheView {
    let key = MemberKey { guild_id, user_id: m.id };
    if v.members.contains_key(key) && cached_matches_interaction(v.members[key], m) {
        v
    } else {
        let deaf = if v.members.contains_key(key) {
            v.members[key].deaf
        } else {
            None
        };
        let mute = if v.members.contains_key(key) {
            v.members[key].mute
        } else {
            None
        };
        CacheView {
            guild_members: v.guild_members.insert(
                guild_id,
                index_set(v.guild_members, guild_id).insert(m.id),
            ),
            members: v.members.insert(key, interaction_to_cached(guild_id, m, deaf, mute)),
            ..v
        }
    }
}

/// What removing a member leaves in the cache: the member record and the
/// guild's member-set entry go, and the guild's reference to the user is
/// released.
pub open spec fn spec_member_remove(v: CacheView, guild_id: GuildId, user_id: UserId) -> CacheView {
    let v1 = CacheView {
        members: v.members.remove(MemberKey { guild_id, user_id }),
        guild_members: spec_index_remove(v.guild_members, guild_id, user_id),
        ..v
    };
    spec_remove_guild_reference(v1, user_id, guild_id)
}

impl InMemoryCache {
    /// Cache one canonical copy of a user, observed from an optional guild
    /// context.
    pub fn cache_user(&mut self, user: User, guild_id: Option<GuildId>)
        ensures
            final(self)@ == spec_cache_user(old(self)@, user@, guild_id),
    {
        let ghost uv = user@;
        let user_id = user.id;
        let matches = match self.users.get(&user_id) {
            Some(entry) => entry.user.view_eq(&user),
            None => false,
        };
        if matches {
            if let Some(g) = guild_id {
                match self.users.remove(&user_id) {
                    Some(mut entry) => {
                        entry.guilds.insert(g);
                        self.users.insert(user_id, entry);
                    },
                    None => {
                        proof {
                            assert(false);
                        }
                    },
                }
            }
            proof {
                assert(self@ =~= spec_cache_user(old(self)@, uv, guild_id));
            }
            return ;
        }
        if let Some(g) = guild_id {
            let mut guild_id_set = IdSet::new();
            guild_id_set.insert(g);
            self.users.insert(user_id, UserEntry { user, guilds: guild_id_set });
        }
        proof {
            assert(self@ =~= spec_cache_user(old(self)@, uv, guild_id));
        }
    }

    /// Release one guild's reference to a user, deleting the record when the
    /// last reference goes.
    pub fn remove_guild_reference(&mut self, user_id: UserId, guild_id: GuildId)
        ensures
            final(self)@ == spec_remove_guild_reference(old(self)@, user_id, guild_id),
    {
        match self.users.remove(&user_id) {
            Some(mut entry) => {
                entry.guilds.remove(&guild_id);
                if entry.guilds.is_empty() {
                    proof {
                        assert(self@ =~= spec_remove_guild_reference(old(self)@, user_id, guild_id));
                    }
                } else {
                    self.users.insert(user_id, entry);
                    proof {
                        assert(self@ =~= spec_remove_guild_reference(old(self)@, user_id, guild_id));
                    }
                }
            },
            None => {},
        }
    }

    /// Upsert a member of a guild, caching its embedded user.
    pub fn cache_member(&mut self, guild_id: GuildId, member: Member)
        ensures
            final(self)@ == spec_cache_member(old(self)@, guild_id, member@),
    {
        let ghost mv = member@;
        let member_id = member.user.id;
        let key = MemberKey { guild_id, user_id: member_id };
        let skip = match self.members.get(&key) {
            Some(m) => m.matches_member(&member),
            None => false,
        };
        if skip {
            return ;
        }
        let Member { user, roles, nick, joined_at, premium_since, deaf, mute, pending } = member;
        self.cache_user(user, Some(guild_id));
        let cached = CachedMember {
            guild_id,
            user_id: member_id,
            roles,
            nick,
            joined_at,
            premium_since,
            deaf: Some(deaf),
            mute: Some(mute),
            pending,
        };
        proof {
            assert(cached@ == member_to_cached(guild_id, mv));
        }
        self.members.insert(key, cached);
        index_insert(&mut self.guild_members, guild_id, member_id);
        proof {
            assert(self@ =~= spec_cache_member(old(self)@, guild_id, mv));
        }
    }

    /// Upsert a member delivered without its user.
    pub fn cache_borrowed_partial_member(
        &mut self,
        guild_id: GuildId,
        member: &PartialMember,
        user_id: UserId,
    )
        ensures
            final(self)@ == spec_cache_partial_member(old(self)@, guild_id, member@, user_id),
    {
        let key = MemberKey { guild_id, user_id };
        let skip = match self.members.get(&key) {
            Some(m) => m.matches_partial(member),
            None => false,
        };
        if skip {
            return ;
        }
        index_insert(&mut self.guild_members, guild_id, user_id);
        let cached = CachedMember {
            guild_id,
            user_id,
            roles: clone_role_ids(&member.roles),
            nick: clone_opt_str(&member.nick),
            joined_at: clone_opt_str(&member.joined_at),
            premium_since: None,
            deaf: Some(member.deaf),
            mute: Some(member.mute),
            pending: false,
        };
        proof {
            assert(cached@ == partial_to_cached(guild_id, user_id, member@));
        }
        self.members.insert(key, cached);
        proof {
            assert(self@ =~= spec_cache_partial_member(old(self)@, guild_id, member@, user_id));
        }
    }

    /// Upsert a member delivered inside an interaction, inheriting the
    /// deafen and mute flags of any record it replaces.
    pub fn cache_borrowed_interaction_member(&mut self, guild_id: GuildId, member: &InteractionMember)
        ensures
            final(self)@ == spec_cache_interaction_member(old(self)@, guild_id, member@),
    {
        let key = MemberKey { guild_id, user_id: member.id };
        let (skip, deaf, mute) = match self.members.get(&key) {
            Some(m) => (m.matches_interaction(member), m.deaf, m.mute),
            None => (false, None, None),
        };
        if skip {
            return ;
        }
        index_insert(&mut self.guild_members, guild_id, member.id);
        let cached = CachedMember {
            guild_id,
            user_id: member.id,
            roles: clone_role_ids(&member.roles),
            nick: clone_opt_str(&member.nick),
            joined_at: clone_opt_str(&member.joined_at),
            premium_since: clone_opt_str(&member.premium_since),
            deaf,
            mute,
            pending: false,
        };
        proof {
            assert(cached@ == interaction_to_cached(guild_id, member@, deaf, mute));
        }
        self.members.insert(key, cached);
        proof {
            assert(self@ =~= spec_cache_interaction_member(old(self)@, guild_id, member@));
        }
    }

    /// Remove a member: the record, the guild's member-set entry, and the
    /// guild's reference to the user.
    pub fn member_remove(&mut self, guild_id: GuildId, user_id: UserId)
        ensures
            final(self)@ == spec_member_remove(old(self)@, guild_id, user_id),
    {
        let ghost v0 = self@;
        let key = MemberKey { guild_id, user_id };
        let _removed = self.members.remove(&key);
        index_remove(&mut self.guild_members, guild_id, &user_id);
        proof {
            assert(self@ =~= (CacheView {
                members: v0.members.remove(key),
                guild_members: spec_index_remove(v0.guild_members, guild_id, user_id),
                ..v0
            }));
        }
        self.remove_guild_reference(user_id, guild_id);
        proof {
            assert(self@ == spec_member_remove(v0, guild_id, user_id));
        }
    }
}

} // verus!
