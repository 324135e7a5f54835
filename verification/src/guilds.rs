//! Bulk seeding from a whole guild snapshot. For each enabled category the
//! guild's membership-set container is created first — so that caching the
//! children always has a place to put them, and so that an enabled category
//! with zero children reads as an empty container rather than no container —
//! and the snapshot's collections are cached through the ordinary upserts.

use crate::cache::CacheView;
use crate::cache::InMemoryCache;
use crate::config::ResourceType;
use crate::ids::GuildId;
use crate::model::guild_to_cached;
use crate::model::CachedGuild;
use crate::model::Guild;
use crate::model::GuildView;
use crate::refresh::spec_cache_emojis;
use crate::refresh::spec_cache_guild_channel_seq;
use crate::refresh::spec_cache_member_seq;
use crate::refresh::spec_cache_presence_seq;
use crate::refresh::spec_cache_role_seq;
use crate::refresh::spec_cache_stage_instance_seq;
use crate::store::IdSet;
use crate::voice::spec_cache_voice_state_seq;
use vstd::prelude::*;

verus! {

/// Whether the configuration of a cache state wants a category processed.
pub open spec fn wants_resource(v: CacheView, rt: ResourceType) -> bool {
    v.config.resource_types.spec_contains(rt)
}

/// What caching a whole guild snapshot leaves in the cache: for each enabled
/// category, a fresh empty membership container for the guild followed by
/// the snapshot's collection; then the guild leaves the unavailable set and
/// its record is stored.
pub open spec fn spec_cache_guild(v: CacheView, g: GuildView) -> CacheView {
    let v1 = if wants_resource(v, ResourceType::Channel) {
        spec_cache_guild_channel_seq(
            CacheView { guild_channels: v.guild_channels.insert(g.id, Set::empty()), ..v },
            g.id,
            g.channels,
        )
    } else {
        v
    };
    let v2 = if wants_resource(v, ResourceType::Emoji) {
        spec_cache_emojis(
            CacheView { guild_emojis: v1.guild_emojis.insert(g.id, Set::empty()), ..v1 },
            g.id,
            g.emojis,
        )
    } else {
        v1
    };
    let v3 = if wants_resource(v, ResourceType::Member) {
        spec_cache_member_seq(
            CacheView { guild_members: v2.guild_members.insert(g.id, Set::empty()), ..v2 },
            g.id,
            g.members,
        )
    } else {
        v2
    };
    let v4 = if wants_resource(v, ResourceType::Presence) {
        spec_cache_presence_seq(
            CacheView { guild_presences: v3.guild_presences.insert(g.id, Set::empty()), ..v3 },
            g.id,
            g.presences,
        )
    } else {
        v3
    };
    let v5 = if wants_resource(v, ResourceType::Role) {
        spec_cache_role_seq(
            CacheView { guild_roles: v4.guild_roles.insert(g.id, Set::empty()), ..v4 },
            g.id,
            g.roles,
        )
    } else {
        v4
    };
    let v6 = if wants_resource(v, ResourceType::VoiceState) {
        spec_cache_voice_state_seq(
            CacheView {
                voice_state_guilds: v5.voice_state_guilds.insert(g.id, Set::empty()),
                ..v5
            },
            g.voice_states,
        )
    } else {
        v5
    };
    let v7 = if wants_resource(v, ResourceType::StageInstance) {
        spec_cache_stage_instance_seq(
            CacheView {
                guild_stage_instances: v6.guild_stage_instances.insert(g.id, Set::empty()),
                ..v6
            },
            g.id,
            g.stage_instances,
        )
    } else {
        v6
    };
    CacheView {
        unavailable_guilds: v7.unavailable_guilds.remove(g.id),
        guilds: v7.guilds.insert(g.id, guild_to_cached(g)),
        ..v7
    }
}

impl InMemoryCache {
    /// Cache a whole guild snapshot.
    pub fn cache_guild(&mut self, guild: Guild)
        ensures
            final(self)@ == spec_cache_guild(old(self)@, guild@),
    {
        let ghost v0 = self@;
        let ghost gv = guild@;
        let wants_channel = self.wants(ResourceType::Channel);
        let wants_emoji = self.wants(ResourceType::Emoji);
        let wants_member = self.wants(ResourceType::Member);
        let wants_presence = self.wants(ResourceType::Presence);
        let wants_role = self.wants(ResourceType::Role);
        let wants_voice_state = self.wants(ResourceType::VoiceState);
        let wants_stage_instance = self.wants(ResourceType::StageInstance);
        let Guild {
            id,
            name,
            owner_id,
            afk_timeout,
            member_count,
            max_members,
            max_presences,
            preferred_locale,
            unavailable,
            channels,
            emojis,
            members,
            presences,
            roles,
            stage_instances,
            voice_states,
        } = guild;
        if wants_channel {
            self.guild_channels.insert(id, IdSet::new());
            proof {
                assert(self@ =~= (CacheView {
                    guild_channels: v0.guild_channels.insert(id, Set::empty()),
                    ..v0
                }));
                assert(channels@.map_values(|c: crate::model::GuildChannel| c@) == gv.channels);
            }
            self.cache_guild_channels(id, channels);
        }
        let ghost v1 = self@;
        proof {
            assert(v1 == (if wants_resource(v0, ResourceType::Channel) {
                spec_cache_guild_channel_seq(
                    CacheView { guild_channels: v0.guild_channels.insert(gv.id, Set::empty()), ..v0 },
                    gv.id,
                    gv.channels,
                )
            } else {
                v0
            }));
        }
        if wants_emoji {
            self.guild_emojis.insert(id, IdSet::new());
            proof {
                assert(self@ =~= (CacheView {
                    guild_emojis: v1.guild_emojis.insert(id, Set::empty()),
                    ..v1
                }));
                assert(emojis@.map_values(|e: crate::model::Emoji| e@) == gv.emojis);
            }
            self.cache_emojis(id, emojis);
        }
        let ghost v2 = self@;
        proof {
            assert(v2 == (if wants_resource(v0, ResourceType::Emoji) {
                spec_cache_emojis(
                    CacheView { guild_emojis: v1.guild_emojis.insert(gv.id, Set::empty()), ..v1 },
                    gv.id,
                    gv.emojis,
                )
            } else {
                v1
            }));
        }
        if wants_member {
            self.guild_members.insert(id, IdSet::new());
            proof {
                assert(self@ =~= (CacheView {
                    guild_members: v2.guild_members.insert(id, Set::empty()),
                    ..v2
                }));
                assert(members@.map_values(|m: crate::model::Member| m@) == gv.members);
            }
            self.cache_members(id, members);
        }
        let ghost v3 = self@;
        proof {
            assert(v3 == (if wants_resource(v0, ResourceType::Member) {
                spec_cache_member_seq(
                    CacheView { guild_members: v2.guild_members.insert(gv.id, Set::empty()), ..v2 },
                    gv.id,
                    gv.members,
                )
            } else {
                v2
            }));
        }
        if wants_presence {
            self.guild_presences.insert(id, IdSet::new());
            proof {
                assert(self@ =~= (CacheView {
                    guild_presences: v3.guild_presences.insert(id, Set::empty()),
                    ..v3
                }));
                assert(presences@.map_values(|p: crate::model::Presence| p@) == gv.presences);
            }
            self.cache_presences(id, presences);
        }
        let ghost v4 = self@;
        proof {
            assert(v4 == (if wants_resource(v0, ResourceType::Presence) {
                spec_cache_presence_seq(
                    CacheView { guild_presences: v3.guild_presences.insert(gv.id, Set::empty()), ..v3 },
                    gv.id,
                    gv.presences,
                )
            } else {
                v3
            }));
        }
        if wants_role {
            self.guild_roles.insert(id, IdSet::new());
            proof {
                assert(self@ =~= (CacheView {
                    guild_roles: v4.guild_roles.insert(id, Set::empty()),
                    ..v4
                }));
                assert(roles@.map_values(|r: crate::model::Role| r@) == gv.roles);
            }
            self.cache_roles(id, roles);
        }
        let ghost v5 = self@;
        proof {
            assert(v5 == (if wants_resource(v0, ResourceType::Role) {
                spec_cache_role_seq(
                    CacheView { guild_roles: v4.guild_roles.insert(gv.id, Set::empty()), ..v4 },
                    gv.id,
                    gv.roles,
                )
            } else {
                v4
            }));
        }
        if wants_voice_state {
            self.voice_state_guilds.insert(id, IdSet::new());
            proof {
                assert(self@ =~= (CacheView {
                    voice_state_guilds: v5.voice_state_guilds.insert(id, Set::empty()),
                    ..v5
                }));
                assert(voice_states@.map_values(|s: crate::model::VoiceState| s@)
                    == gv.voice_states);
            }
            self.cache_voice_states(voice_states);
        }
        let ghost v6 = self@;
        proof {
            assert(v6 == (if wants_resource(v0, ResourceType::VoiceState) {
                spec_cache_voice_state_seq(
                    CacheView {
                        voice_state_guilds: v5.voice_state_guilds.insert(gv.id, Set::empty()),
                        ..v5
                    },
                    gv.voice_states,
                )
            } else {
                v5
            }));
        }
        if wants_stage_instance {
            self.guild_stage_instances.insert(id, IdSet::new());
            proof {
                assert(self@ =~= (CacheView {
                    guild_stage_instances: v6.guild_stage_instances.insert(id, Set::empty()),
                    ..v6
                }));
                assert(stage_instances@.map_values(|s: crate::model::StageInstance| s@)
                    == gv.stage_instances);
            }
            self.cache_stage_instances(id, stage_instances);
        }
        let ghost v7 = self@;
        proof {
            assert(v7 == (if wants_resource(v0, ResourceType::StageInstance) {
                spec_cache_stage_instance_seq(
                    CacheView {
                        guild_stage_instances: v6.guild_stage_instances.insert(gv.id, Set::empty()),
                        ..v6
                    },
                    gv.id,
                    gv.stage_instances,
                )
            } else {
                v6
            }));
        }
        self.unavailable_guilds.remove(&id);
        let cached = CachedGuild {
            id,
            name,
            owner_id,
            afk_timeout,
            member_count,
            max_members,
            max_presences,
            preferred_locale,
            unavailable,
        };
        proof {
            assert(cached@ == guild_to_cached(gv));
        }
        self.guilds.insert(id, cached);
        proof {
            assert(self@ =~= (CacheView {
                unavailable_guilds: v7.unavailable_guilds.remove(gv.id),
                guilds: v7.guilds.insert(gv.id, guild_to_cached(gv)),
                ..v7
            }));
            assert(self@ == spec_cache_guild(v0, gv));
        }
    }
}

} // verus!
