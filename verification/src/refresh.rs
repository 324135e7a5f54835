//! Bulk deliveries and the collection diff applier. A bulk upsert caches
//! each entity in order. An authoritative emoji refresh first removes the
//! stale entries (indexed under the guild but absent from the incoming
//! collection) from both the primary table and the guild's set, then upserts
//! every incoming emoji, so the final index set equals the incoming key set.

use crate::cache::index_set;
use crate::cache::CacheView;
use crate::cache::InMemoryCache;
use crate::ids::EmojiId;
use crate::ids::GuildId;
use crate::model::emoji_to_cached;
use crate::model::CachedEmoji;
use crate::model::Emoji;
use crate::model::EmojiView;
use crate::model::GuildChannel;
use crate::model::GuildChannelView;
use crate::model::GuildItem;
use crate::model::GuildItemView;
use crate::model::Member;
use crate::model::MemberView;
use crate::model::Presence;
use crate::model::PresenceView;
use crate::model::Role;
use crate::model::RoleView;
use crate::model::StageInstance;
use crate::model::StageInstanceView;
use crate::scopes::index_insert;
use crate::scopes::spec_cache_guild_channel;
use crate::scopes::spec_cache_presence;
use crate::scopes::spec_cache_role;
use crate::scopes::spec_cache_stage_instance;
use crate::users::spec_cache_member;
use crate::users::spec_cache_user;
use vstd::prelude::*;

verus! {

/// What caching each role of a sequence in order leaves in the cache.
pub open spec fn spec_cache_role_seq(v: CacheView, guild_id: GuildId, rs: Seq<RoleView>) -> CacheView
    decreases rs.len(),
{
    if rs.len() == 0 {
        v
    } else {
        spec_cache_role_seq(spec_cache_role(v, guild_id, rs.first()), guild_id, rs.drop_first())
    }
}

/// What caching each member of a sequence in order leaves in the cache.
pub open spec fn spec_cache_member_seq(
    v: CacheView,
    guild_id: GuildId,
    ms: Seq<MemberView>,
) -> CacheView
    decreases ms.len(),
{
    if ms.len() == 0 {
        v
    } else {
        spec_cache_member_seq(spec_cache_member(v, guild_id, ms.first()), guild_id, ms.drop_first())
    }
}

/// What caching each presence of a sequence in order leaves in the cache.
pub open spec fn spec_cache_presence_seq(
    v: CacheView,
    guild_id: GuildId,
    ps: Seq<PresenceView>,
) -> CacheView
    decreases ps.len(),
{
    if ps.len() == 0 {
        v
    } else {
        spec_cache_presence_seq(
            spec_cache_presence(v, guild_id, ps.first()),
            guild_id,
            ps.drop_first(),
        )
    }
}

/// What caching each stage instance of a sequence in order leaves in the
/// cache.
pub open spec fn spec_cache_stage_instance_seq(
    v: CacheView,
    guild_id: GuildId,
    ss: Seq<StageInstanceView>,
) -> CacheView
    decreases ss.len(),
{
    if ss.len() == 0 {
        v
    } else {
        spec_cache_stage_instance_seq(
            spec_cache_stage_instance(v, guild_id, ss.first()),
            guild_id,
            ss.drop_first(),
        )
    }
}

/// What caching each guild channel of a sequence in order leaves in the
/// cache.
pub open spec fn spec_cache_guild_channel_seq(
    v: CacheView,
    guild_id: GuildId,
    cs: Seq<GuildChannelView>,
) -> CacheView
    decreases cs.len(),
{
    if cs.len() == 0 {
        v
    } else {
        spec_cache_guild_channel_seq(
            spec_cache_guild_channel(v, guild_id, cs.first()),
            guild_id,
            cs.drop_first(),
        )
    }
}

/// What caching one emoji leaves in the cache: a no-op when the stored
/// projection already agrees with the payload; otherwise any embedded
/// uploader is cached under the guild, the projection is stored, and the id
/// joins the guild's emoji set.
pub open spec fn spec_cache_emoji(v: CacheView, guild_id: GuildId, e: EmojiView) -> CacheView {
    if v.emojis.contains_key(e.id) && v.emojis[e.id].data == emoji_to_cached(e) {
        v
    } else {
        let v1 = match e.user {
            Some(u) => spec_cache_user(v, u, Some(guild_id)),
            None => v,
        };
        CacheView {
            emojis: v1.emojis.insert(
                e.id,
                GuildItemView { data: emoji_to_cached(e), guild_id },
            ),
            guild_emojis: v1.guild_emojis.insert(
                guild_id,
                index_set(v1.guild_emojis, guild_id).insert(e.id),
            ),
            ..v1
        }
    }
}

/// What caching each emoji of a sequence in order leaves in the cache.
pub open spec fn spec_cache_emoji_seq(
    v: CacheView,
    guild_id: GuildId,
    es: Seq<EmojiView>,
) -> CacheView
    decreases es.len(),
{
    if es.len() == 0 {
        v
    } else {
        spec_cache_emoji_seq(spec_cache_emoji(v, guild_id, es.first()), guild_id, es.drop_first())
    }
}

/// The ids of a sequence of emoji payloads.
pub open spec fn emoji_ids(es: Seq<EmojiView>) -> Seq<EmojiId> {
    es.map_values(|e: EmojiView| e.id)
}

/// The views of a vector of emoji payloads.
pub open spec fn emoji_views(es: Seq<Emoji>) -> Seq<EmojiView> {
    es.map_values(|e: Emoji| e@)
}

/// The views of a vector of member payloads.
pub open spec fn member_views(ms: Seq<Member>) -> Seq<MemberView> {
    ms.map_values(|m: Member| m@)
}

/// What removing the stale emojis of a guild leaves in the cache: every id
/// indexed under the guild but absent from the incoming key set leaves both
/// the primary table and the guild's set. A guild with no emoji container is
/// untouched.
pub open spec fn spec_prune_stale_emojis(
    v: CacheView,
    guild_id: GuildId,
    incoming: Set<EmojiId>,
) -> CacheView {
    if v.guild_emojis.contains_key(guild_id) {
        CacheView {
            guild_emojis: v.guild_emojis.insert(
                guild_id,
                v.guild_emojis[guild_id].intersect(incoming),
            ),
            emojis: v.emojis.remove_keys(v.guild_emojis[guild_id].difference(incoming)),
            ..v
        }
    } else {
        v
    }
}

/// What an authoritative emoji refresh leaves in the cache: stale entries
/// removed, then every incoming emoji upserted.
pub open spec fn spec_cache_emojis(v: CacheView, guild_id: GuildId, es: Seq<EmojiView>) -> CacheView {
    spec_cache_emoji_seq(
        spec_prune_stale_emojis(v, guild_id, emoji_ids(es).to_set()),
        guild_id,
        es,
    )
}

fn contains_emoji_id(ids: &Vec<EmojiId>, id: EmojiId) -> (r: bool)
    ensures
        r == ids@.contains(id),
{
    let mut i: usize = 0;
    while i < ids.len()
        invariant
            i <= ids@.len(),
            forall|j: int| 0 <= j < i ==> ids@[j] != id,
        decreases ids@.len() - i,
    {
        if ids[i].0 == id.0 {
            proof {
                assert(ids@[i as int] == id);
            }
            return true;
        }
        i += 1;
    }
    false
}

impl InMemoryCache {
    /// Upsert one custom emoji of a guild.
    pub fn cache_emoji(&mut self, guild_id: GuildId, emoji: Emoji)
        ensures
            final(self)@ == spec_cache_emoji(old(self)@, guild_id, emoji@),
    {
        let ghost ev = emoji@;
        let skip = match self.emojis.get(&emoji.id) {
            Some(item) => item.data.matches_emoji(&emoji),
            None => false,
        };
        if skip {
            return ;
        }
        let Emoji { id, name, animated, managed, require_colons, available, roles, user } = emoji;
        let user_id = match &user {
            Some(u) => Some(u.id),
            None => None,
        };
        if let Some(u) = user {
            self.cache_user(u, Some(guild_id));
        }
        let cached = CachedEmoji {
            id,
            name,
            animated,
            managed,
            require_colons,
            available,
            roles,
            user_id,
        };
        proof {
            assert(cached@ == emoji_to_cached(ev));
        }
        self.emojis.insert(id, GuildItem { data: cached, guild_id });
        index_insert(&mut self.guild_emojis, guild_id, id);
        proof {
            assert(self@ =~= spec_cache_emoji(old(self)@, guild_id, ev));
        }
    }

    /// Apply an authoritative emoji collection for a guild: remove the stale
    /// entries first, then upsert every incoming emoji.
    pub fn cache_emojis(&mut self, guild_id: GuildId, emojis: Vec<Emoji>)
        ensures
            final(self)@ == spec_cache_emojis(
                old(self)@,
                guild_id,
                emojis@.map_values(|e: Emoji| e@),
            ),
    {
        let ghost v0 = self@;
        let ghost es = emojis@.map_values(|e: Emoji| e@);
        let ghost incoming_set = emoji_ids(es).to_set();
        let mut incoming: Vec<EmojiId> = Vec::new();
        let mut i: usize = 0;
        while i < emojis.len()
            invariant
                i <= emojis@.len(),
                es == emojis@.map_values(|e: Emoji| e@),
                incoming@ == emoji_ids(es).subrange(0, i as int),
            decreases emojis@.len() - i,
        {
            incoming.push(emojis[i].id);
            proof {
                assert(emoji_ids(es)[i as int] == emojis@[i as int].id);
                assert(incoming@ =~= emoji_ids(es).subrange(0, i + 1));
            }
            i += 1;
        }
        proof {
            assert(incoming@ =~= emoji_ids(es));
        }
        match self.guild_emojis.remove(&guild_id) {
            Some(mut set) => {
                let ghost orig = v0.guild_emojis[guild_id];
                let current = set.to_vec();
                let mut j: usize = 0;
                while j < current.len()
                    invariant
                        j <= current@.len(),
                        current@.to_set() == orig,
                        incoming@ == emoji_ids(es),
                        incoming_set == emoji_ids(es).to_set(),
                        set@ == orig.difference(
                            current@.subrange(0, j as int).to_set().difference(incoming_set),
                        ),
                        self.emojis@ == v0.emojis.remove_keys(
                            current@.subrange(0, j as int).to_set().difference(incoming_set),
                        ),
                        self@ == (CacheView {
                            guild_emojis: v0.guild_emojis.remove(guild_id),
                            emojis: self.emojis@,
                            ..v0
                        }),
                    decreases current@.len() - j,
                {
                    let ghost processed = current@.subrange(0, j as int).to_set();
                    let id = current[j];
                    proof {
                        assert(current@.subrange(0, j + 1) =~= current@.subrange(
                            0,
                            j as int,
                        ).push(id));
                        current@.subrange(0, j as int).lemma_push_to_set_commute(id);
                        assert(current@.subrange(0, j + 1).to_set() =~= processed.insert(id));
                    }
                    if !contains_emoji_id(&incoming, id) {
                        proof {
                            assert(!incoming_set.contains(id));
                            assert(processed.insert(id).difference(incoming_set)
                                =~= processed.difference(incoming_set).insert(id));
                            assert(orig.difference(
                                processed.difference(incoming_set).insert(id),
                            ) =~= orig.difference(processed.difference(incoming_set)).remove(id));
                            assert(v0.emojis.remove_keys(
                                processed.difference(incoming_set).insert(id),
                            ) =~= v0.emojis.remove_keys(
                                processed.difference(incoming_set),
                            ).remove(id));
                        }
                        set.remove(&id);
                        let _removed = self.emojis.remove(&id);
                    } else {
                        proof {
                            assert(incoming_set.contains(id));
                            assert(processed.insert(id).difference(incoming_set)
                                =~= processed.difference(incoming_set));
                        }
                    }
                    j += 1;
                }
                proof {
                    assert(current@.subrange(0, current@.len() as int) =~= current@);
                    assert(set@ =~= orig.intersect(incoming_set));
                }
                self.guild_emojis.insert(guild_id, set);
                proof {
                    assert(self@ =~= spec_prune_stale_emojis(v0, guild_id, incoming_set));
                }
            },
            None => {},
        }
        let ghost target = spec_cache_emoji_seq(self@, guild_id, es);
        proof {
            assert(spec_cache_emojis(v0, guild_id, es) == target);
        }
        let mut emojis = emojis;
        while emojis.len() > 0
            invariant
                spec_cache_emoji_seq(self@, guild_id, emojis@.map_values(|e: Emoji| e@)) == target,
            decreases emojis@.len(),
        {
            let ghost rem = emojis@.map_values(|e: Emoji| e@);
            let emoji = emojis.remove(0);
            proof {
                assert(emojis@.map_values(|e: Emoji| e@) =~= rem.drop_first());
                assert(emoji@ == rem.first());
            }
            self.cache_emoji(guild_id, emoji);
        }
        proof {
            assert(emojis@.map_values(|e: Emoji| e@) =~= Seq::<EmojiView>::empty());
        }
    }

    /// Upsert every role of a bulk delivery, in order.
    pub fn cache_roles(&mut self, guild_id: GuildId, roles: Vec<Role>)
        ensures
            final(self)@ == spec_cache_role_seq(
                old(self)@,
                guild_id,
                roles@.map_values(|r: Role| r@),
            ),
    {
        let ghost target = spec_cache_role_seq(self@, guild_id, roles@.map_values(|r: Role| r@));
        let mut roles = roles;
        while roles.len() > 0
            invariant
                spec_cache_role_seq(self@, guild_id, roles@.map_values(|r: Role| r@)) == target,
            decreases roles@.len(),
        {
            let ghost rem = roles@.map_values(|r: Role| r@);
            let role = roles.remove(0);
            proof {
                assert(roles@.map_values(|r: Role| r@) =~= rem.drop_first());
                assert(role@ == rem.first());
            }
            self.cache_role(guild_id, role);
        }
        proof {
            assert(roles@.map_values(|r: Role| r@) =~= Seq::<RoleView>::empty());
        }
    }

    /// Upsert every member of a bulk delivery, in order.
    pub fn cache_members(&mut self, guild_id: GuildId, members: Vec<Member>)
        ensures
            final(self)@ == spec_cache_member_seq(
                old(self)@,
                guild_id,
                members@.map_values(|m: Member| m@),
            ),
    {
        let ghost target = spec_cache_member_seq(
            self@,
            guild_id,
            members@.map_values(|m: Member| m@),
        );
        let mut members = members;
        while members.len() > 0
            invariant
                spec_cache_member_seq(self@, guild_id, members@.map_values(|m: Member| m@))
                    == target,
            decreases members@.len(),
        {
            let ghost rem = members@.map_values(|m: Member| m@);
            let member = members.remove(0);
            proof {
                assert(members@.map_values(|m: Member| m@) =~= rem.drop_first());
                assert(member@ == rem.first());
            }
            self.cache_member(guild_id, member);
        }
        proof {
            assert(members@.map_values(|m: Member| m@) =~= Seq::<MemberView>::empty());
        }
    }

    /// Upsert every presence of a bulk delivery, in order.
    pub fn cache_presences(&mut self, guild_id: GuildId, presences: Vec<Presence>)
        ensures
            final(self)@ == spec_cache_presence_seq(
                old(self)@,
                guild_id,
                presences@.map_values(|p: Presence| p@),
            ),
    {
        let ghost target = spec_cache_presence_seq(
            self@,
            guild_id,
            presences@.map_values(|p: Presence| p@),
        );
        let mut presences = presences;
        while presences.len() > 0
            invariant
                spec_cache_presence_seq(self@, guild_id, presences@.map_values(|p: Presence| p@))
                    == target,
            decreases presences@.len(),
        {
            let ghost rem = presences@.map_values(|p: Presence| p@);
            let presence = presences.remove(0);
            proof {
                assert(presences@.map_values(|p: Presence| p@) =~= rem.drop_first());
                assert(presence@ == rem.first());
            }
            self.cache_presence(guild_id, presence);
        }
        proof {
            assert(presences@.map_values(|p: Presence| p@) =~= Seq::<PresenceView>::empty());
        }
    }

    /// Upsert every stage instance of a bulk delivery, in order.
    pub fn cache_stage_instances(&mut self, guild_id: GuildId, stage_instances: Vec<StageInstance>)
        ensures
            final(self)@ == spec_cache_stage_instance_seq(
                old(self)@,
                guild_id,
                stage_instances@.map_values(|s: StageInstance| s@),
            ),
    {
        let ghost target = spec_cache_stage_instance_seq(
            self@,
            guild_id,
            stage_instances@.map_values(|s: StageInstance| s@),
        );
        let mut stage_instances = stage_instances;
        while stage_instances.len() > 0
            invariant
                spec_cache_stage_instance_seq(
                    self@,
                    guild_id,
                    stage_instances@.map_values(|s: StageInstance| s@),
                ) == target,
            decreases stage_instances@.len(),
        {
            let ghost rem = stage_instances@.map_values(|s: StageInstance| s@);
            let stage_instance = stage_instances.remove(0);
            proof {
                assert(stage_instances@.map_values(|s: StageInstance| s@) =~= rem.drop_first());
                assert(stage_instance@ == rem.first());
            }
            self.cache_stage_instance(guild_id, stage_instance);
        }
        proof {
            assert(stage_instances@.map_values(|s: StageInstance| s@)
                =~= Seq::<StageInstanceView>::empty());
        }
    }

    /// Upsert every channel of a guild snapshot, in order, injecting the
    /// owning-guild back-reference into each.
    pub fn cache_guild_channels(&mut self, guild_id: GuildId, guild_channels: Vec<GuildChannel>)
        ensures
            final(self)@ == spec_cache_guild_channel_seq(
                old(self)@,
                guild_id,
                guild_channels@.map_values(|c: GuildChannel| c@),
            ),
    {
        let ghost target = spec_cache_guild_channel_seq(
            self@,
            guild_id,
            guild_channels@.map_values(|c: GuildChannel| c@),
        );
        let mut guild_channels = guild_channels;
        while guild_channels.len() > 0
            invariant
                spec_cache_guild_channel_seq(
                    self@,
                    guild_id,
                    guild_channels@.map_values(|c: GuildChannel| c@),
                ) == target,
            decreases guild_channels@.len(),
        {
            let ghost rem = guild_channels@.map_values(|c: GuildChannel| c@);
            let channel = guild_channels.remove(0);
            proof {
                assert(guild_channels@.map_values(|c: GuildChannel| c@) =~= rem.drop_first());
                assert(channel@ == rem.first());
            }
            self.cache_guild_channel(guild_id, channel);
        }
        proof {
            assert(guild_channels@.map_values(|c: GuildChannel| c@)
                =~= Seq::<GuildChannelView>::empty());
        }
    }
}

} // verus!
