//! The cache itself: one table per entity category, one membership-set index
//! per scope-owned category, and the read API. The abstract value of the
//! whole cache is a [`CacheView`]: a record of finite maps and sets that
//! every mutation contract is stated over.

use crate::config::Config;
use crate::config::ResourceType;
use crate::ids::ChannelId;
use crate::ids::EmojiId;
use crate::ids::GuildId;
use crate::ids::IntegrationId;
use crate::ids::IntegrationKey;
use crate::ids::MemberKey;
use crate::ids::MessageId;
use crate::ids::RoleId;
use crate::ids::StageId;
use crate::ids::UserId;
use crate::messages::MessageList;
use crate::model::CachedEmoji;
use crate::model::CachedEmojiView;
use crate::model::CachedGuild;
use crate::model::CachedGuildView;
use crate::model::CachedMember;
use crate::model::CachedMemberView;
use crate::model::CachedMessage;
use crate::model::CachedMessageView;
use crate::model::CachedPresence;
use crate::model::CurrentUser;
use crate::model::CurrentUserView;
use crate::model::Group;
use crate::model::GroupView;
use crate::model::GuildChannel;
use crate::model::GuildChannelView;
use crate::model::GuildIntegration;
use crate::model::GuildIntegrationView;
use crate::model::GuildItem;
use crate::model::GuildItemView;
use crate::model::PrivateChannel;
use crate::model::PrivateChannelView;
use crate::model::Role;
use crate::model::RoleView;
use crate::model::StageInstance;
use crate::model::StageInstanceView;
use crate::model::User;
use crate::model::UserEntry;
use crate::model::UserEntryView;
use crate::model::UserView;
use crate::model::VoiceState;
use crate::model::VoiceStateView;
use crate::store::IdSet;
use crate::store::Table;
use vstd::prelude::*;

verus! {

/// The membership set a scope currently has in an index, or the empty set
/// where the scope has no container at all.
pub open spec fn index_set<S, K>(m: Map<S, Set<K>>, s: S) -> Set<K> {
    if m.contains_key(s) {
        m[s]
    } else {
        Set::empty()
    }
}

/// The abstract value of a whole cache: every table as a finite map, every
/// membership index as a map of sets, and the configuration.
#[verifier::ext_equal]
pub struct CacheView {
    pub config: Config,
    pub channels_guild: Map<ChannelId, GuildItemView<GuildChannelView>>,
    pub channels_private: Map<ChannelId, PrivateChannelView>,
    pub current_user: Option<CurrentUserView>,
    pub emojis: Map<EmojiId, GuildItemView<CachedEmojiView>>,
    pub groups: Map<ChannelId, GroupView>,
    pub guilds: Map<GuildId, CachedGuildView>,
    pub guild_channels: Map<GuildId, Set<ChannelId>>,
    pub guild_emojis: Map<GuildId, Set<EmojiId>>,
    pub guild_integrations: Map<GuildId, Set<IntegrationId>>,
    pub guild_members: Map<GuildId, Set<UserId>>,
    pub guild_presences: Map<GuildId, Set<UserId>>,
    pub guild_roles: Map<GuildId, Set<RoleId>>,
    pub guild_stage_instances: Map<GuildId, Set<StageId>>,
    pub integrations: Map<IntegrationKey, GuildItemView<GuildIntegrationView>>,
    pub members: Map<MemberKey, CachedMemberView>,
    pub messages: Map<ChannelId, Seq<CachedMessageView>>,
    pub presences: Map<MemberKey, CachedPresence>,
    pub roles: Map<RoleId, GuildItemView<RoleView>>,
    pub stage_instances: Map<StageId, GuildItemView<StageInstanceView>>,
    pub unavailable_guilds: Set<GuildId>,
    pub users: Map<UserId, UserEntryView>,
    pub voice_state_channels: Map<ChannelId, Set<MemberKey>>,
    pub voice_state_guilds: Map<GuildId, Set<UserId>>,
    pub voice_states: Map<MemberKey, VoiceStateView>,
}

/// The abstract value of a cache that holds nothing yet.
pub open spec fn spec_empty_cache(config: Config) -> CacheView {
    CacheView {
        config,
        channels_guild: Map::empty(),
        channels_private: Map::empty(),
        current_user: None,
        emojis: Map::empty(),
        groups: Map::empty(),
        guilds: Map::empty(),
        guild_channels: Map::empty(),
        guild_emojis: Map::empty(),
        guild_integrations: Map::empty(),
        guild_members: Map::empty(),
        guild_presences: Map::empty(),
        guild_roles: Map::empty(),
        guild_stage_instances: Map::empty(),
        integrations: Map::empty(),
        members: Map::empty(),
        messages: Map::empty(),
        presences: Map::empty(),
        roles: Map::empty(),
        stage_instances: Map::empty(),
        unavailable_guilds: Set::empty(),
        users: Map::empty(),
        voice_state_channels: Map::empty(),
        voice_state_guilds: Map::empty(),
        voice_states: Map::empty(),
    }
}

/// What a whole-cache clear leaves behind: every table empty, the
/// configuration untouched.
pub open spec fn spec_clear(v: CacheView) -> CacheView {
    spec_empty_cache(v.config)
}

/// An in-process cache of a chat platform's object graph, updated by a
/// stream of events and read through cheap point lookups.
pub struct InMemoryCache {
    pub config: Config,
    pub channels_guild: Table<ChannelId, GuildItem<GuildChannel>>,
    pub channels_private: Table<ChannelId, PrivateChannel>,
    pub current_user: Option<CurrentUser>,
    pub emojis: Table<EmojiId, GuildItem<CachedEmoji>>,
    pub groups: Table<ChannelId, Group>,
    pub guilds: Table<GuildId, CachedGuild>,
    pub guild_channels: Table<GuildId, IdSet<ChannelId>>,
    pub guild_emojis: Table<GuildId, IdSet<EmojiId>>,
    pub guild_integrations: Table<GuildId, IdSet<IntegrationId>>,
    pub guild_members: Table<GuildId, IdSet<UserId>>,
    pub guild_presences: Table<GuildId, IdSet<UserId>>,
    pub guild_roles: Table<GuildId, IdSet<RoleId>>,
    pub guild_stage_instances: Table<GuildId, IdSet<StageId>>,
    pub integrations: Table<IntegrationKey, GuildItem<GuildIntegration>>,
    pub members: Table<MemberKey, CachedMember>,
    pub messages: Table<ChannelId, MessageList>,
    pub presences: Table<MemberKey, CachedPresence>,
    pub roles: Table<RoleId, GuildItem<Role>>,
    pub stage_instances: Table<StageId, GuildItem<StageInstance>>,
    pub unavailable_guilds: IdSet<GuildId>,
    pub users: Table<UserId, UserEntry>,
    pub voice_state_channels: Table<ChannelId, IdSet<MemberKey>>,
    pub voice_state_guilds: Table<GuildId, IdSet<UserId>>,
    pub voice_states: Table<MemberKey, VoiceState>,
}

/// The view of the optional current-user slot.
pub open spec fn opt_current_user_view(o: &Option<CurrentUser>) -> Option<CurrentUserView> {
    match o {
        Some(c) => Some(c@),
        None => None,
    }
}

/// What a channel-scoped voice lookup returns where the channel has
/// connected users: some sequence of keys picks out exactly the connected
/// pairs that have a record, and the returned states are their records.
pub open spec fn voice_channel_states_post(
    v: CacheView,
    channel_id: ChannelId,
    r: Option<Vec<VoiceState>>,
) -> bool {
    match r {
        Some(states) => exists|ks: Seq<MemberKey>|
            #[trigger] voice_states_for_keys(v, channel_id, ks, states@),
        None => true,
    }
}

/// Whether `states` materializes exactly one voice-state record for each
/// connected key of the channel that has a record, keyed by the sequence
/// `ks`, with no key repeated.
pub open spec fn voice_states_for_keys(
    v: CacheView,
    channel_id: ChannelId,
    ks: Seq<MemberKey>,
    states: Seq<VoiceState>,
) -> bool {
    &&& ks.no_duplicates()
    &&& ks.len() == states.len()
    &&& forall|j: int|
        0 <= j < ks.len() ==> v.voice_state_channels[channel_id].contains(#[trigger] ks[j])
            && v.voice_states.contains_key(ks[j]) && states[j]@ == v.voice_states[ks[j]]
    &&& forall|k: MemberKey|
        v.voice_state_channels[channel_id].contains(k) && v.voice_states.contains_key(k)
            ==> #[trigger] ks.contains(k)
}

impl View for InMemoryCache {
    type V = CacheView;

    open spec fn view(&self) -> CacheView {
        CacheView {
            config: self.config,
            channels_guild: self.channels_guild@,
            channels_private: self.channels_private@,
            current_user: opt_current_user_view(&self.current_user),
            emojis: self.emojis@,
            groups: self.groups@,
            guilds: self.guilds@,
            guild_channels: self.guild_channels@,
            guild_emojis: self.guild_emojis@,
            guild_integrations: self.guild_integrations@,
            guild_members: self.guild_members@,
            guild_presences: self.guild_presences@,
            guild_roles: self.guild_roles@,
            guild_stage_instances: self.guild_stage_instances@,
            integrations: self.integrations@,
            members: self.members@,
            messages: self.messages@,
            presences: self.presences@,
            roles: self.roles@,
            stage_instances: self.stage_instances@,
            unavailable_guilds: self.unavailable_guilds@,
            users: self.users@,
            voice_state_channels: self.voice_state_channels@,
            voice_state_guilds: self.voice_state_guilds@,
            voice_states: self.voice_states@,
        }
    }
}

impl InMemoryCache {
    /// A new, empty cache with the given configuration.
    pub fn new_with_config(config: Config) -> (r: Self)
        ensures
            r@ == spec_empty_cache(config),
    {
        let r = InMemoryCache {
            config,
            channels_guild: Table::new(),
            channels_private: Table::new(),
            current_user: None,
            emojis: Table::new(),
            groups: Table::new(),
            guilds: Table::new(),
            guild_channels: Table::new(),
            guild_emojis: Table::new(),
            guild_integrations: Table::new(),
            guild_members: Table::new(),
            guild_presences: Table::new(),
            guild_roles: Table::new(),
            guild_stage_instances: Table::new(),
            integrations: Table::new(),
            members: Table::new(),
            messages: Table::new(),
            presences: Table::new(),
            roles: Table::new(),
            stage_instances: Table::new(),
            unavailable_guilds: IdSet::new(),
            users: Table::new(),
            voice_state_channels: Table::new(),
            voice_state_guilds: Table::new(),
            voice_states: Table::new(),
        };
        proof {
            assert(r@ =~= spec_empty_cache(config));
        }
        r
    }

    /// A new, empty cache that caches every category and keeps the default
    /// number of messages per channel.
    pub fn new() -> (r: Self)
        ensures
            r@ == spec_empty_cache(r@.config),
            forall|rt: ResourceType| r@.config.resource_types.spec_contains(rt),
            r@.config.message_cache_size == crate::config::DEFAULT_MESSAGE_CACHE_SIZE,
    {
        Self::new_with_config(Config::new())
    }

    /// A copy of the active configuration.
    pub fn config(&self) -> (c: Config)
        ensures
            c == self@.config,
    {
        self.config
    }

    /// Whether the configured cache wants a category to be processed at all.
    pub fn wants(&self, resource_type: ResourceType) -> (r: bool)
        ensures
            r == self@.config.resource_types.spec_contains(resource_type),
    {
        self.config.resource_types.contains(resource_type)
    }

    /// A channel by id.
    pub fn guild_channel(&self, channel_id: ChannelId) -> (r: Option<GuildChannel>)
        ensures
            match r {
                Some(c) => self@.channels_guild.contains_key(channel_id) && c@
                    == self@.channels_guild[channel_id].data,
                None => !self@.channels_guild.contains_key(channel_id),
            },
    {
        match self.channels_guild.get(&channel_id) {
            Some(item) => Some(item.data.clone()),
            None => None,
        }
    }

    /// The current user, if one was observed.
    pub fn current_user(&self) -> (r: Option<CurrentUser>)
        ensures
            match r {
                Some(c) => self@.current_user == Some(c@),
                None => self@.current_user is None,
            },
    {
        match &self.current_user {
            Some(c) => Some(c.clone()),
            None => None,
        }
    }

    /// An emoji by id.
    pub fn emoji(&self, emoji_id: EmojiId) -> (r: Option<CachedEmoji>)
        ensures
            match r {
                Some(e) => self@.emojis.contains_key(emoji_id) && e@
                    == self@.emojis[emoji_id].data,
                None => !self@.emojis.contains_key(emoji_id),
            },
    {
        match self.emojis.get(&emoji_id) {
            Some(item) => Some(item.data.clone()),
            None => None,
        }
    }

    /// A group by channel id.
    pub fn group(&self, channel_id: ChannelId) -> (r: Option<Group>)
        ensures
            match r {
                Some(g) => self@.groups.contains_key(channel_id) && g@
                    == self@.groups[channel_id],
                None => !self@.groups.contains_key(channel_id),
            },
    {
        match self.groups.get(&channel_id) {
            Some(g) => Some(g.clone()),
            None => None,
        }
    }

    /// A guild by id.
    pub fn guild(&self, guild_id: GuildId) -> (r: Option<CachedGuild>)
        ensures
            match r {
                Some(g) => self@.guilds.contains_key(guild_id) && g@ == self@.guilds[guild_id],
                None => !self@.guilds.contains_key(guild_id),
            },
    {
        match self.guilds.get(&guild_id) {
            Some(g) => Some(g.clone()),
            None => None,
        }
    }

    /// The ids of the channels in a guild. `Some` of an empty vector means
    /// the guild is known and empty; `None` means no container exists.
    pub fn guild_channels(&self, guild_id: GuildId) -> (r: Option<Vec<ChannelId>>)
        ensures
            match r {
                Some(v) => self@.guild_channels.contains_key(guild_id) && v@.to_set()
                    == self@.guild_channels[guild_id] && v@.no_duplicates(),
                None => !self@.guild_channels.contains_key(guild_id),
            },
    {
        match self.guild_channels.get(&guild_id) {
            Some(s) => Some(s.to_vec()),
            None => None,
        }
    }

    /// The ids of the emojis in a guild.
    pub fn guild_emojis(&self, guild_id: GuildId) -> (r: Option<Vec<EmojiId>>)
        ensures
            match r {
                Some(v) => self@.guild_emojis.contains_key(guild_id) && v@.to_set()
                    == self@.guild_emojis[guild_id] && v@.no_duplicates(),
                None => !self@.guild_emojis.contains_key(guild_id),
            },
    {
        match self.guild_emojis.get(&guild_id) {
            Some(s) => Some(s.to_vec()),
            None => None,
        }
    }

    /// The ids of the cached members of a guild.
    pub fn guild_members(&self, guild_id: GuildId) -> (r: Option<Vec<UserId>>)
        ensures
            match r {
                Some(v) => self@.guild_members.contains_key(guild_id) && v@.to_set()
                    == self@.guild_members[guild_id] && v@.no_duplicates(),
                None => !self@.guild_members.contains_key(guild_id),
            },
    {
        match self.guild_members.get(&guild_id) {
            Some(s) => Some(s.to_vec()),
            None => None,
        }
    }

    /// The ids of the users with a cached presence in a guild.
    pub fn guild_presences(&self, guild_id: GuildId) -> (r: Option<Vec<UserId>>)
        ensures
            match r {
                Some(v) => self@.guild_presences.contains_key(guild_id) && v@.to_set()
                    == self@.guild_presences[guild_id] && v@.no_duplicates(),
                None => !self@.guild_presences.contains_key(guild_id),
            },
    {
        match self.guild_presences.get(&guild_id) {
            Some(s) => Some(s.to_vec()),
            None => None,
        }
    }

    /// The ids of the roles of a guild.
    pub fn guild_roles(&self, guild_id: GuildId) -> (r: Option<Vec<RoleId>>)
        ensures
            match r {
                Some(v) => self@.guild_roles.contains_key(guild_id) && v@.to_set()
                    == self@.guild_roles[guild_id] && v@.no_duplicates(),
                None => !self@.guild_roles.contains_key(guild_id),
            },
    {
        match self.guild_roles.get(&guild_id) {
            Some(s) => Some(s.to_vec()),
            None => None,
        }
    }

    /// The ids of the stage instances of a guild.
    pub fn guild_stage_instances(&self, guild_id: GuildId) -> (r: Option<Vec<StageId>>)
        ensures
            match r {
                Some(v) => self@.guild_stage_instances.contains_key(guild_id) && v@.to_set()
                    == self@.guild_stage_instances[guild_id] && v@.no_duplicates(),
                None => !self@.guild_stage_instances.contains_key(guild_id),
            },
    {
        match self.guild_stage_instances.get(&guild_id) {
            Some(s) => Some(s.to_vec()),
            None => None,
        }
    }

    /// A member by guild id and user id.
    pub fn member(&self, guild_id: GuildId, user_id: UserId) -> (r: Option<CachedMember>)
        ensures
            match r {
                Some(m) => self@.members.contains_key(MemberKey { guild_id, user_id }) && m@
                    == self@.members[MemberKey { guild_id, user_id }],
                None => !self@.members.contains_key(MemberKey { guild_id, user_id }),
            },
    {
        match self.members.get(&(MemberKey { guild_id, user_id })) {
            Some(m) => Some(m.clone()),
            None => None,
        }
    }

    /// A message by channel id and message id.
    pub fn message(&self, channel_id: ChannelId, message_id: MessageId) -> (r: Option<
        CachedMessage,
    >)
        ensures
            match r {
                Some(m) => self@.messages.contains_key(channel_id) && exists|i: int|
                    0 <= i < self@.messages[channel_id].len()
                        && self@.messages[channel_id][i].id == message_id && m@
                        == self@.messages[channel_id][i],
                None => !self@.messages.contains_key(channel_id) || forall|i: int|
                    0 <= i < self@.messages[channel_id].len()
                        ==> self@.messages[channel_id][i].id != message_id,
            },
    {
        match self.messages.get(&channel_id) {
            Some(list) => match list.get_message(message_id) {
                Some(m) => Some(m.clone()),
                None => None,
            },
            None => None,
        }
    }

    /// A presence by guild id and user id.
    pub fn presence(&self, guild_id: GuildId, user_id: UserId) -> (r: Option<CachedPresence>)
        ensures
            match r {
                Some(p) => self@.presences.contains_key(MemberKey { guild_id, user_id }) && p
                    == self@.presences[MemberKey { guild_id, user_id }],
                None => !self@.presences.contains_key(MemberKey { guild_id, user_id }),
            },
    {
        match self.presences.get(&(MemberKey { guild_id, user_id })) {
            Some(p) => Some(*p),
            None => None,
        }
    }

    /// A private channel by id.
    pub fn private_channel(&self, channel_id: ChannelId) -> (r: Option<PrivateChannel>)
        ensures
            match r {
                Some(c) => self@.channels_private.contains_key(channel_id) && c@
                    == self@.channels_private[channel_id],
                None => !self@.channels_private.contains_key(channel_id),
            },
    {
        match self.channels_private.get(&channel_id) {
            Some(c) => Some(c.clone()),
            None => None,
        }
    }

    /// A role by id.
    pub fn role(&self, role_id: RoleId) -> (r: Option<Role>)
        ensures
            match r {
                Some(role) => self@.roles.contains_key(role_id) && role@
                    == self@.roles[role_id].data,
                None => !self@.roles.contains_key(role_id),
            },
    {
        match self.roles.get(&role_id) {
            Some(item) => Some(item.data.clone()),
            None => None,
        }
    }

    /// A stage instance by id.
    pub fn stage_instance(&self, stage_id: StageId) -> (r: Option<StageInstance>)
        ensures
            match r {
                Some(s) => self@.stage_instances.contains_key(stage_id) && s@
                    == self@.stage_instances[stage_id].data,
                None => !self@.stage_instances.contains_key(stage_id),
            },
    {
        match self.stage_instances.get(&stage_id) {
            Some(item) => Some(item.data.clone()),
            None => None,
        }
    }

    /// A user by id.
    pub fn user(&self, user_id: UserId) -> (r: Option<User>)
        ensures
            match r {
                Some(u) => self@.users.contains_key(user_id) && u@ == self@.users[user_id].user,
                None => !self@.users.contains_key(user_id),
            },
    {
        match self.users.get(&user_id) {
            Some(entry) => Some(entry.user.clone()),
            None => None,
        }
    }

    /// A user record together with its guild-reference set, by id.
    pub fn user_ref(&self, user_id: UserId) -> (r: Option<&UserEntry>)
        ensures
            match r {
                Some(e) => self@.users.contains_key(user_id) && e@ == self@.users[user_id],
                None => !self@.users.contains_key(user_id),
            },
    {
        self.users.get(&user_id)
    }

    /// A voice state by user id and guild id.
    pub fn voice_state(&self, user_id: UserId, guild_id: GuildId) -> (r: Option<VoiceState>)
        ensures
            match r {
                Some(v) => self@.voice_states.contains_key(MemberKey { guild_id, user_id }) && v@
                    == self@.voice_states[MemberKey { guild_id, user_id }],
                None => !self@.voice_states.contains_key(MemberKey { guild_id, user_id }),
            },
    {
        match self.voice_states.get(&(MemberKey { guild_id, user_id })) {
            Some(v) => Some(v.clone()),
            None => None,
        }
    }

    /// The voice states of every user connected to a channel: `None` where
    /// the channel has no connected users at all.
    pub fn voice_channel_states(&self, channel_id: ChannelId) -> (r: Option<Vec<VoiceState>>)
        ensures
            (r is Some) == self@.voice_state_channels.contains_key(channel_id),
            voice_channel_states_post(self@, channel_id, r),
    {
        let keys = match self.voice_state_channels.get(&channel_id) {
            Some(set) => set.to_vec(),
            None => {
                return None;
            },
        };
        let ghost key_set = self@.voice_state_channels[channel_id];
        let mut states: Vec<VoiceState> = Vec::new();
        let ghost mut matched: Seq<MemberKey> = Seq::empty();
        let mut i: usize = 0;
        while i < keys.len()
            invariant
                i <= keys@.len(),
                keys@.to_set() == key_set,
                keys@.no_duplicates(),
                matched.no_duplicates(),
                matched.len() == states@.len(),
                forall|j: int|
                    0 <= j < matched.len() ==> keys@.subrange(0, i as int).contains(
                        #[trigger] matched[j],
                    ),
                forall|j: int|
                    0 <= j < states@.len() ==> key_set.contains(#[trigger] matched[j])
                        && self@.voice_states.contains_key(matched[j]) && states@[j]@
                        == self@.voice_states[matched[j]],
                forall|k: MemberKey|
                    keys@.subrange(0, i as int).contains(k) && self@.voice_states.contains_key(k)
                        ==> #[trigger] matched.contains(k),
            decreases keys@.len() - i,
        {
            let key = keys[i];
            proof {
                assert(keys@.contains(key));
                assert(key_set.contains(key));
            }
            match self.voice_states.get(&key) {
                Some(v) => {
                    let ghost states_before = states@;
                    let ghost matched_before = matched;
                    states.push(v.clone());
                    proof {
                        matched = matched.push(key);
                        assert(forall|j: int|
                            0 <= j < states_before.len() ==> states@[j] == states_before[j]);
                        assert(forall|j: int|
                            0 <= j < matched_before.len() ==> matched[j] == matched_before[j]);
                        assert(states@[states_before.len() as int]@ == self@.voice_states[key]);
                        assert(matched[matched_before.len() as int] == key);
                        assert(keys@.subrange(0, i + 1)[i as int] == key);
                        assert forall|j: int|
                            0 <= j < matched.len() implies keys@.subrange(0, i + 1).contains(
                            #[trigger] matched[j],
                        ) by {
                            if j < matched_before.len() {
                                let idx = choose|idx: int|
                                    0 <= idx < i && #[trigger] keys@.subrange(0, i as int)[idx]
                                        == matched_before[j];
                                assert(keys@.subrange(0, i + 1)[idx] == matched[j]);
                            }
                        }
                        assert(!matched_before.contains(key)) by {
                            if matched_before.contains(key) {
                                let j = choose|j: int|
                                    0 <= j < matched_before.len() && matched_before[j] == key;
                                let idx = choose|idx: int|
                                    0 <= idx < i && #[trigger] keys@.subrange(0, i as int)[idx]
                                        == key;
                                assert(keys@[idx] == keys@[i as int]);
                            }
                        }
                        assert(matched.drop_last() =~= matched_before);
                        assert forall|k: MemberKey|
                            keys@.subrange(0, i + 1).contains(k)
                                && self@.voice_states.contains_key(k) implies #[trigger] matched.contains(
                            k,
                        ) by {
                            let idx = choose|idx: int|
                                0 <= idx < i + 1 && #[trigger] keys@.subrange(0, i + 1)[idx] == k;
                            if idx < i {
                                assert(keys@.subrange(0, i as int)[idx] == k);
                                assert(keys@.subrange(0, i as int).contains(k));
                                assert(matched_before.contains(k));
                                let j = choose|j: int|
                                    0 <= j < matched_before.len() && matched_before[j] == k;
                                assert(matched[j] == k);
                            } else {
                                assert(k == key);
                                assert(matched[matched_before.len() as int] == k);
                            }
                        }
                    }
                },
                None => {
                    proof {
                        assert(!self@.voice_states.contains_key(key));
                        assert forall|j: int|
                            0 <= j < matched.len() implies keys@.subrange(0, i + 1).contains(
                            #[trigger] matched[j],
                        ) by {
                            let idx = choose|idx: int|
                                0 <= idx < i && #[trigger] keys@.subrange(0, i as int)[idx]
                                    == matched[j];
                            assert(keys@.subrange(0, i + 1)[idx] == matched[j]);
                        }
                        assert forall|k: MemberKey|
                            keys@.subrange(0, i + 1).contains(k)
                                && self@.voice_states.contains_key(k) implies #[trigger] matched.contains(
                            k,
                        ) by {
                            let idx = choose|idx: int|
                                0 <= idx < i + 1 && #[trigger] keys@.subrange(0, i + 1)[idx] == k;
                            if idx < i {
                                assert(keys@.subrange(0, i as int)[idx] == k);
                                assert(keys@.subrange(0, i as int).contains(k));
                            } else {
                                assert(k == key);
                            }
                        }
                    }
                },
            }
            i += 1;
        }
        proof {
            assert(keys@.subrange(0, keys@.len() as int) =~= keys@);
            assert forall|j: int|
                0 <= j < matched.len() implies self@.voice_state_channels[channel_id].contains(
                #[trigger] matched[j],
            ) && self@.voice_states.contains_key(matched[j]) && states@[j]@
                == self@.voice_states[matched[j]] by {
                assert(key_set.contains(matched[j]));
            }
            assert forall|k: MemberKey|
                self@.voice_state_channels[channel_id].contains(k)
                    && self@.voice_states.contains_key(k) implies #[trigger] matched.contains(
                k,
            ) by {
                assert(keys@.contains(k));
            }
            assert(voice_states_for_keys(self@, channel_id, matched, states@));
            let ghost rr: Option<Vec<VoiceState>> = Some(states);
            assert((rr->0)@ == states@);
            assert(voice_states_for_keys(self@, channel_id, matched, (rr->0)@));
            assert(voice_channel_states_post(self@, channel_id, rr));
        }
        Some(states)
    }

    /// Empty every table; the configuration stays.
    pub fn clear(&mut self)
        ensures
            final(self)@ == spec_clear(old(self)@),
    {
        self.channels_guild.clear();
        self.channels_private.clear();
        self.current_user = None;
        self.emojis.clear();
        self.groups.clear();
        self.guilds.clear();
        self.guild_channels.clear();
        self.guild_emojis.clear();
        self.guild_integrations.clear();
        self.guild_members.clear();
        self.guild_presences.clear();
        self.guild_roles.clear();
        self.guild_stage_instances.clear();
        self.integrations.clear();
        self.members.clear();
        self.messages.clear();
        self.presences.clear();
        self.roles.clear();
        self.stage_instances.clear();
        self.unavailable_guilds.clear();
        self.users.clear();
        self.voice_state_channels.clear();
        self.voice_state_guilds.clear();
        self.voice_states.clear();
        proof {
            assert(self@ =~= spec_clear(old(self)@));
        }
    }

    /// An interface reporting per-table counts.
    pub fn stats(&self) -> (r: InMemoryCacheStats<'_>)
        ensures
            r.cache == self,
    {
        InMemoryCacheStats { cache: self }
    }
}

/// A statistics snapshot interface over a cache: per-table entry counts.
pub struct InMemoryCacheStats<'a> {
    pub cache: &'a InMemoryCache,
}

impl<'a> InMemoryCacheStats<'a> {
    /// The number of cached guild channels.
    pub fn channels_guild(&self) -> (n: usize)
        ensures
            n == self.cache@.channels_guild.dom().len(),
    {
        self.cache.channels_guild.len()
    }

    /// The number of cached private channels.
    pub fn channels_private(&self) -> (n: usize)
        ensures
            n == self.cache@.channels_private.dom().len(),
    {
        self.cache.channels_private.len()
    }

    /// The number of cached emojis.
    pub fn emojis(&self) -> (n: usize)
        ensures
            n == self.cache@.emojis.dom().len(),
    {
        self.cache.emojis.len()
    }

    /// The number of cached groups.
    pub fn groups(&self) -> (n: usize)
        ensures
            n == self.cache@.groups.dom().len(),
    {
        self.cache.groups.len()
    }

    /// The number of cached guilds.
    pub fn guilds(&self) -> (n: usize)
        ensures
            n == self.cache@.guilds.dom().len(),
    {
        self.cache.guilds.len()
    }

    /// The number of cached integrations.
    pub fn integrations(&self) -> (n: usize)
        ensures
            n == self.cache@.integrations.dom().len(),
    {
        self.cache.integrations.len()
    }

    /// The number of cached members.
    pub fn members(&self) -> (n: usize)
        ensures
            n == self.cache@.members.dom().len(),
    {
        self.cache.members.len()
    }

    /// The number of cached presences.
    pub fn presences(&self) -> (n: usize)
        ensures
            n == self.cache@.presences.dom().len(),
    {
        self.cache.presences.len()
    }

    /// The number of cached roles.
    pub fn roles(&self) -> (n: usize)
        ensures
            n == self.cache@.roles.dom().len(),
    {
        self.cache.roles.len()
    }

    /// The number of cached stage instances.
    pub fn stage_instances(&self) -> (n: usize)
        ensures
            n == self.cache@.stage_instances.dom().len(),
    {
        self.cache.stage_instances.len()
    }

    /// The number of guilds marked unavailable.
    pub fn unavailable_guilds(&self) -> (n: usize)
        ensures
            n == self.cache@.unavailable_guilds.len(),
    {
        self.cache.unavailable_guilds.len()
    }

    /// The number of cached users.
    pub fn users(&self) -> (n: usize)
        ensures
            n == self.cache@.users.dom().len(),
    {
        self.cache.users.len()
    }

    /// The number of cached voice states.
    pub fn voice_states(&self) -> (n: usize)
        ensures
            n == self.cache@.voice_states.dom().len(),
    {
        self.cache.voice_states.len()
    }

    /// The number of channels with connected users.
    pub fn voice_state_channels(&self) -> (n: usize)
        ensures
            n == self.cache@.voice_state_channels.dom().len(),
    {
        self.cache.voice_state_channels.len()
    }

    /// The number of guilds with connected users.
    pub fn voice_state_guilds(&self) -> (n: usize)
        ensures
            n == self.cache@.voice_state_guilds.dom().len(),
    {
        self.cache.voice_state_guilds.len()
    }
}

} // verus!
