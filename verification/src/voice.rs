//! The voice-state index: a three-way consistency structure relating each
//! (guild, user) pair to its record, each channel to its connected pairs,
//! and each guild to its connected users. The cleanup of the previously
//! recorded channel always runs before the new state is established, and is
//! keyed off the previous cached record; an update for a pair absent from
//! the cache is a pure join with no cleanup.

use crate::cache::index_set;
use crate::cache::CacheView;
use crate::cache::InMemoryCache;
use crate::ids::MemberKey;
use crate::model::VoiceState;
use crate::model::VoiceStateView;
use crate::scopes::index_insert;
use crate::scopes::index_remove_prune;
use crate::scopes::spec_index_remove_prune;
use vstd::prelude::*;

verus! {

/// What cleaning up a pair's previously recorded channel leaves in the
/// channel index: the pair leaves that channel's connected set, and an
/// emptied set is pruned away. A pair with no record, or one recorded as
/// disconnected, changes nothing.
pub open spec fn spec_cleanup_old_channel(v: CacheView, key: MemberKey) -> CacheView {
    if v.voice_states.contains_key(key) {
        match v.voice_states[key].channel_id {
            Some(old_channel) => CacheView {
                voice_state_channels: spec_index_remove_prune(
                    v.voice_state_channels,
                    old_channel,
                    key,
                ),
                ..v
            },
            None => v,
        }
    } else {
        v
    }
}

/// What one voice-state update leaves in the cache. A record without a guild
/// id is dropped. Otherwise the old channel is cleaned up first; then an
/// absent channel id (a disconnect) removes the pair from the guild's
/// connected set (pruning an emptied set) and from the global table, while a
/// present channel id overwrites the record and inserts the pair into the
/// guild's and the channel's connected sets.
pub open spec fn spec_cache_voice_state(v: CacheView, vs: VoiceStateView) -> CacheView {
    match vs.guild_id {
        None => v,
        Some(guild_id) => {
            let key = MemberKey { guild_id, user_id: vs.user_id };
            let v1 = spec_cleanup_old_channel(v, key);
            match vs.channel_id {
                None => CacheView {
                    voice_state_guilds: spec_index_remove_prune(
                        v1.voice_state_guilds,
                        guild_id,
                        vs.user_id,
                    ),
                    voice_states: v1.voice_states.remove(key),
                    ..v1
                },
                Some(channel_id) => CacheView {
                    voice_states: v1.voice_states.insert(key, vs),
                    voice_state_guilds: v1.voice_state_guilds.insert(
                        guild_id,
                        index_set(v1.voice_state_guilds, guild_id).insert(vs.user_id),
                    ),
                    voice_state_channels: v1.voice_state_channels.insert(
                        channel_id,
                        index_set(v1.voice_state_channels, channel_id).insert(key),
                    ),
                    ..v1
                },
            }
        },
    }
}

/// What applying each voice state of a sequence in order leaves in the
/// cache.
pub open spec fn spec_cache_voice_state_seq(v: CacheView, ss: Seq<VoiceStateView>) -> CacheView
    decreases ss.len(),
{
    if ss.len() == 0 {
        v
    } else {
        spec_cache_voice_state_seq(spec_cache_voice_state(v, ss.first()), ss.drop_first())
    }
}

impl InMemoryCache {
    /// Apply one voice-state update: join, move, flag-only overwrite or
    /// disconnect, depending on the previous record and the incoming channel.
    pub fn cache_voice_state(&mut self, voice_state: VoiceState)
        ensures
            final(self)@ == spec_cache_voice_state(old(self)@, voice_state@),
    {
        let ghost vsv = voice_state@;
        let guild_id = match voice_state.guild_id {
            Some(id) => id,
            None => {
                return ;
            },
        };
        let user_id = voice_state.user_id;
        let key = MemberKey { guild_id, user_id };
        let old_channel = match self.voice_states.get(&key) {
            Some(previous) => previous.channel_id,
            None => None,
        };
        if let Some(channel) = old_channel {
            index_remove_prune(&mut self.voice_state_channels, channel, &key);
        }
        proof {
            assert(self@ =~= spec_cleanup_old_channel(old(self)@, key));
        }
        match voice_state.channel_id {
            None => {
                index_remove_prune(&mut self.voice_state_guilds, guild_id, &user_id);
                let _removed = self.voice_states.remove(&key);
                proof {
                    assert(self@ =~= spec_cache_voice_state(old(self)@, vsv));
                }
            },
            Some(channel_id) => {
                index_insert(&mut self.voice_state_guilds, guild_id, user_id);
                index_insert(&mut self.voice_state_channels, channel_id, key);
                self.voice_states.insert(key, voice_state);
                proof {
                    assert(self@ =~= spec_cache_voice_state(old(self)@, vsv));
                }
            },
        }
    }

    /// Apply every voice state of a bulk delivery, in order.
    pub fn cache_voice_states(&mut self, voice_states: Vec<VoiceState>)
        ensures
            final(self)@ == spec_cache_voice_state_seq(
                old(self)@,
                voice_states@.map_values(|s: VoiceState| s@),
            ),
    {
        let ghost target = spec_cache_voice_state_seq(
            self@,
            voice_states@.map_values(|s: VoiceState| s@),
        );
        let mut voice_states = voice_states;
        while voice_states.len() > 0
            invariant
                spec_cache_voice_state_seq(
                    self@,
                    voice_states@.map_values(|s: VoiceState| s@),
                ) == target,
            decreases voice_states@.len(),
        {
            let ghost rem = voice_states@.map_values(|s: VoiceState| s@);
            let voice_state = voice_states.remove(0);
            proof {
                assert(voice_states@.map_values(|s: VoiceState| s@) =~= rem.drop_first());
                assert(voice_state@ == rem.first());
            }
            self.cache_voice_state(voice_state);
        }
        proof {
            assert(voice_states@.map_values(|s: VoiceState| s@) =~= Seq::<VoiceStateView>::empty());
        }
    }
}

} // verus!
