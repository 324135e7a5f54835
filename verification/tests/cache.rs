use inmemory_cache::events::Event;
use inmemory_cache::ids::ChannelId;
use inmemory_cache::ids::EmojiId;
use inmemory_cache::ids::GuildId;
use inmemory_cache::ids::MemberKey;
use inmemory_cache::ids::RoleId;
use inmemory_cache::ids::StageId;
use inmemory_cache::ids::UserId;
use inmemory_cache::model::ChannelKind;
use inmemory_cache::model::CurrentUser;
use inmemory_cache::model::Emoji;
use inmemory_cache::model::Guild;
use inmemory_cache::model::GuildChannel;
use inmemory_cache::model::Member;
use inmemory_cache::model::Role;
use inmemory_cache::model::StageInstance;
use inmemory_cache::model::User;
use inmemory_cache::model::VoiceState;
use inmemory_cache::InMemoryCache;

fn current_user(id: u64) -> CurrentUser {
    CurrentUser {
        id: UserId(id),
        name: "test".to_owned(),
        discriminator: "9876".to_owned(),
        mfa_enabled: true,
    }
}

fn emoji(id: EmojiId, user: Option<User>) -> Emoji {
    Emoji {
        id,
        name: "test".to_owned(),
        animated: false,
        managed: false,
        require_colons: true,
        available: true,
        roles: Vec::new(),
        user,
    }
}

fn member(id: UserId) -> Member {
    Member {
        user: user(id),
        roles: Vec::new(),
        nick: None,
        joined_at: None,
        premium_since: None,
        deaf: false,
        mute: false,
        pending: false,
    }
}

fn role(id: RoleId) -> Role {
    Role {
        id,
        name: "test".to_owned(),
        permissions: 0,
        position: 0,
    }
}

fn user(id: UserId) -> User {
    User {
        id,
        name: "user".to_owned(),
        discriminator: "0001".to_owned(),
        bot: false,
    }
}

fn voice_state(guild_id: GuildId, channel_id: Option<ChannelId>, user_id: UserId) -> VoiceState {
    VoiceState {
        channel_id,
        guild_id: Some(guild_id),
        user_id,
        deaf: false,
        mute: true,
        self_deaf: false,
        self_mute: true,
        session_id: "a".to_owned(),
    }
}

#[test]
fn test_current_user_retrieval() {
    let mut cache = InMemoryCache::new();
    assert!(cache.current_user().is_none());
    cache.cache_current_user(current_user(1));
    assert!(cache.current_user().is_some());
}

#[test]
fn test_guild_create_channels_have_guild_ids() {
    let channels = Vec::from([GuildChannel {
        id: ChannelId(111),
        guild_id: None,
        kind: ChannelKind::Text,
        name: "guild channel with no guild id".to_owned(),
        parent_id: None,
    }]);

    let guild = Guild {
        id: GuildId(123),
        name: "this is a guild".to_owned(),
        owner_id: UserId(456),
        afk_timeout: 300,
        member_count: Some(25),
        max_members: Some(50),
        max_presences: Some(100),
        preferred_locale: "en-GB".to_owned(),
        unavailable: false,
        channels,
        emojis: Vec::new(),
        members: Vec::new(),
        presences: Vec::new(),
        roles: Vec::new(),
        stage_instances: Vec::new(),
        voice_states: Vec::new(),
    };

    let mut cache = InMemoryCache::new();
    cache.cache_guild(guild);

    let channel = cache.guild_channel(ChannelId(111)).unwrap();

    // The channel was given to the cache without a guild id, but because it
    // arrived inside a guild snapshot, the cache attached the snapshot's
    // guild id to it.
    assert_eq!(Some(GuildId(123)), channel.guild_id);
}

#[test]
fn test_syntax_update() {
    let mut cache = InMemoryCache::new();
    cache.update(Event::RoleDelete {
        guild_id: GuildId(0),
        role_id: RoleId(1),
    });
}

#[test]
fn test_cache_user_guild_state() {
    let user_id = UserId(2);
    let mut cache = InMemoryCache::new();
    cache.cache_user(user(user_id), Some(GuildId(1)));

    // The guild's id is the only one in the user's set of guilds.
    {
        let entry = cache.user_ref(user_id).unwrap();
        assert!(entry.guilds.contains(&GuildId(1)));
        assert_eq!(1, entry.guilds.len());
    }

    // A second guild causes 2 in the set.
    cache.cache_user(user(user_id), Some(GuildId(3)));

    {
        let entry = cache.user_ref(user_id).unwrap();
        assert!(entry.guilds.contains(&GuildId(3)));
        assert_eq!(2, entry.guilds.len());
    }

    // Removing the user from one guild removes that id from the set,
    // leaving the other.
    cache.update(Event::MemberRemove {
        guild_id: GuildId(3),
        user: user(user_id),
    });

    {
        let entry = cache.user_ref(user_id).unwrap();
        assert!(!entry.guilds.contains(&GuildId(3)));
        assert_eq!(1, entry.guilds.len());
    }

    // Removing the user from its last guild removes the record.
    cache.update(Event::MemberRemove {
        guild_id: GuildId(1),
        user: user(user_id),
    });
    assert!(cache.user_ref(user_id).is_none());
}

#[test]
fn test_stage_channels() {
    let mut cache = InMemoryCache::new();

    let stage_instance = StageInstance {
        id: StageId(3),
        channel_id: ChannelId(1),
        guild_id: GuildId(2),
        topic: "topic".to_owned(),
    };

    cache.update(Event::StageInstanceCreate(stage_instance.clone()));

    {
        let cached_instances = cache.guild_stage_instances(stage_instance.guild_id).unwrap();
        assert_eq!(1, cached_instances.len());
    }

    {
        let cached_instance = cache.stage_instance(stage_instance.id).unwrap();
        assert_eq!(stage_instance.topic, cached_instance.topic);
    }

    let new_stage_instance = StageInstance {
        topic: "a new topic".to_owned(),
        ..stage_instance.clone()
    };

    cache.update(Event::StageInstanceUpdate(new_stage_instance.clone()));

    {
        let cached_instance = cache.stage_instance(stage_instance.id).unwrap();
        assert_ne!(stage_instance.topic, cached_instance.topic);
        assert_eq!(new_stage_instance.topic, "a new topic");
    }

    cache.update(Event::StageInstanceDelete(new_stage_instance));

    {
        let cached_instances = cache.guild_stage_instances(stage_instance.guild_id).unwrap();
        assert_eq!(0, cached_instances.len());
    }

    {
        let cached_instance = cache.stage_instance(stage_instance.id);
        assert!(cached_instance.is_none());
    }
}

#[test]
fn test_voice_state_inserts_and_removes() {
    let mut cache = InMemoryCache::new();

    // Note: channel ids are `<guildid><idx>` where idx is the index of the
    // channel id, to prevent channel id collisions between guilds. The other
    // two ids are not special since they cannot overlap.

    // User 1 joins guild 1's channel 11 (1 channel, 1 guild).
    {
        let (guild_id, channel_id, user_id) = (GuildId(1), ChannelId(11), UserId(1));
        cache.cache_voice_state(voice_state(guild_id, Some(channel_id), user_id));

        assert!(cache.voice_states.contains_key(&MemberKey { guild_id, user_id }));
        assert_eq!(1, cache.voice_states.len());

        assert!(cache.voice_state_channels.contains_key(&channel_id));
        assert_eq!(1, cache.voice_state_channels.len());

        assert!(cache.voice_state_guilds.contains_key(&guild_id));
        assert_eq!(1, cache.voice_state_guilds.len());
    }

    // User 2 joins guild 2's channel 21 (2 channels, 2 guilds).
    {
        let (guild_id, channel_id, user_id) = (GuildId(2), ChannelId(21), UserId(2));
        cache.cache_voice_state(voice_state(guild_id, Some(channel_id), user_id));

        assert!(cache.voice_states.contains_key(&MemberKey { guild_id, user_id }));
        assert_eq!(2, cache.voice_states.len());

        assert!(cache.voice_state_channels.contains_key(&channel_id));
        assert_eq!(2, cache.voice_state_channels.len());

        assert!(cache.voice_state_guilds.contains_key(&guild_id));
        assert_eq!(2, cache.voice_state_guilds.len());
    }

    // User 3 joins guild 1's channel 12 (3 channels, 2 guilds).
    {
        let (guild_id, channel_id, user_id) = (GuildId(1), ChannelId(12), UserId(3));
        cache.cache_voice_state(voice_state(guild_id, Some(channel_id), user_id));

        assert!(cache.voice_states.contains_key(&MemberKey { guild_id, user_id }));
        assert_eq!(3, cache.voice_states.len());

        assert!(cache.voice_state_channels.contains_key(&channel_id));
        assert_eq!(3, cache.voice_state_channels.len());

        assert!(cache.voice_state_guilds.contains_key(&guild_id));
        // The guild was already inserted, so there is no new guild entry.
        assert_eq!(2, cache.voice_state_guilds.len());
    }

    // User 3 moves to guild 1's channel 11 (2 channels, 2 guilds).
    {
        let (guild_id, channel_id, user_id) = (GuildId(1), ChannelId(11), UserId(3));
        cache.cache_voice_state(voice_state(guild_id, Some(channel_id), user_id));

        assert!(cache.voice_states.contains_key(&MemberKey { guild_id, user_id }));
        // A move, not a join: the global count does not change.
        assert_eq!(3, cache.voice_states.len());

        assert!(cache.voice_state_channels.contains_key(&channel_id));
        // The old channel's entry is removed from the lookup table.
        assert_eq!(2, cache.voice_state_channels.len());

        assert!(cache.voice_state_guilds.contains_key(&guild_id));
        assert_eq!(2, cache.voice_state_guilds.len());
    }

    // User 3 disconnects (2 channels, 2 guilds).
    {
        let (guild_id, channel_id, user_id) = (GuildId(1), ChannelId(11), UserId(3));
        cache.cache_voice_state(voice_state(guild_id, None, user_id));

        assert!(!cache.voice_states.contains_key(&MemberKey { guild_id, user_id }));
        assert_eq!(2, cache.voice_states.len());

        // They were not alone in their channel or guild, so the mappings
        // do not disappear.
        assert!(cache.voice_state_channels.contains_key(&channel_id));
        assert!(cache.voice_state_guilds.contains_key(&guild_id));
        assert_eq!(2, cache.voice_state_guilds.len());
    }

    // User 2 disconnects (1 channel, 1 guild).
    {
        let (guild_id, channel_id, user_id) = (GuildId(2), ChannelId(21), UserId(2));
        cache.cache_voice_state(voice_state(guild_id, None, user_id));

        assert!(!cache.voice_states.contains_key(&MemberKey { guild_id, user_id }));
        assert_eq!(1, cache.voice_states.len());

        // They were the last in their channel, so the mapping disappears.
        assert!(!cache.voice_state_channels.contains_key(&channel_id));
        assert_eq!(1, cache.voice_state_channels.len());

        // They were the last in their guild, so the mapping disappears.
        assert!(!cache.voice_state_guilds.contains_key(&guild_id));
        assert_eq!(1, cache.voice_state_guilds.len());
    }

    // User 1 disconnects (0 channels, 0 guilds).
    {
        let (guild_id, _channel_id, user_id) = (GuildId(1), ChannelId(11), UserId(1));
        cache.cache_voice_state(voice_state(guild_id, None, user_id));

        // The last person disconnected, so all three tables are empty.
        assert!(cache.voice_states.is_empty());
        assert!(cache.voice_state_channels.is_empty());
        assert!(cache.voice_state_guilds.is_empty());
    }
}

#[test]
fn test_voice_states() {
    let mut cache = InMemoryCache::new();
    cache.cache_voice_state(voice_state(GuildId(1), Some(ChannelId(2)), UserId(3)));
    cache.cache_voice_state(voice_state(GuildId(1), Some(ChannelId(2)), UserId(4)));

    // Returns both voice states for the channel that exists.
    assert_eq!(2, cache.voice_channel_states(ChannelId(2)).unwrap().len());

    // Returns None if the channel does not exist.
    assert!(cache.voice_channel_states(ChannelId(0)).is_none());
}

#[test]
fn test_cache_role() {
    let mut cache = InMemoryCache::new();

    // Single inserts.
    {
        let guild_1_role_ids = (1..=10).map(RoleId).collect::<Vec<_>>();
        let guild_1_roles = guild_1_role_ids.iter().copied().map(role).collect::<Vec<_>>();
        for role in guild_1_roles.clone() {
            cache.cache_role(GuildId(1), role);
        }

        let cached_roles = cache.guild_roles(GuildId(1)).unwrap();
        assert_eq!(cached_roles.len(), guild_1_role_ids.len());
        assert!(guild_1_role_ids.iter().all(|id| cached_roles.contains(id)));

        assert!(guild_1_roles
            .into_iter()
            .all(|role| cache.role(role.id).expect("Role missing from cache") == role));
    }

    // Bulk inserts.
    {
        let guild_2_role_ids = (101..=110).map(RoleId).collect::<Vec<_>>();
        let guild_2_roles = guild_2_role_ids.iter().copied().map(role).collect::<Vec<_>>();
        cache.cache_roles(GuildId(2), guild_2_roles.clone());

        let cached_roles = cache.guild_roles(GuildId(2)).unwrap();
        assert_eq!(cached_roles.len(), guild_2_role_ids.len());
        assert!(guild_2_role_ids.iter().all(|id| cached_roles.contains(id)));

        assert!(guild_2_roles
            .into_iter()
            .all(|role| cache.role(role.id).expect("Role missing from cache") == role));
    }
}

#[test]
fn test_cache_guild_member() {
    let mut cache = InMemoryCache::new();

    // Single inserts.
    {
        let guild_1_user_ids = (1..=10).map(UserId).collect::<Vec<_>>();
        let guild_1_members = guild_1_user_ids.iter().copied().map(member).collect::<Vec<_>>();

        for member in guild_1_members {
            cache.cache_member(GuildId(1), member);
        }

        let cached_roles = cache.guild_members(GuildId(1)).unwrap();
        assert_eq!(cached_roles.len(), guild_1_user_ids.len());
        assert!(guild_1_user_ids.iter().all(|id| cached_roles.contains(id)));

        assert!(guild_1_user_ids
            .iter()
            .all(|id| cache.member(GuildId(1), *id).is_some()));

        assert!(guild_1_user_ids.iter().all(|id| cache.user(*id).is_some()));
    }

    // Bulk inserts.
    {
        let guild_2_user_ids = (1..=10).map(UserId).collect::<Vec<_>>();
        let guild_2_members = guild_2_user_ids.iter().copied().map(member).collect::<Vec<_>>();
        cache.cache_members(GuildId(2), guild_2_members);

        let cached_roles = cache.guild_members(GuildId(1)).unwrap();
        assert_eq!(cached_roles.len(), guild_2_user_ids.len());
        assert!(guild_2_user_ids.iter().all(|id| cached_roles.contains(id)));

        assert!(guild_2_user_ids
            .iter()
            .copied()
            .all(|id| cache.member(GuildId(1), id).is_some()));

        assert!(guild_2_user_ids.iter().all(|id| cache.user(*id).is_some()));
    }
}

// The user for some of the emoji inserts.
fn user_mod(id: EmojiId) -> Option<User> {
    if id.0 % 2 == 0 {
        Some(user(UserId(1)))
    } else {
        None
    }
}

#[test]
fn test_cache_emoji() {
    let mut cache = InMemoryCache::new();

    // Single inserts.
    {
        let guild_1_emoji_ids = (1..=10).map(EmojiId).collect::<Vec<_>>();
        let guild_1_emoji = guild_1_emoji_ids
            .iter()
            .copied()
            .map(|id| emoji(id, user_mod(id)))
            .collect::<Vec<_>>();

        for emoji in guild_1_emoji {
            cache.cache_emoji(GuildId(1), emoji);
        }

        for id in guild_1_emoji_ids.iter().cloned() {
            let global_emoji = cache.emoji(id);
            assert!(global_emoji.is_some());
        }

        // The emojis stand in the per-guild lookup map as well.
        let guild_emojis = cache.guild_emojis(GuildId(1));
        assert!(guild_emojis.is_some());
        let guild_emojis = guild_emojis.unwrap();

        assert_eq!(guild_1_emoji_ids.len(), guild_emojis.len());
        assert!(guild_1_emoji_ids.iter().all(|id| guild_emojis.contains(id)));
    }

    // Bulk inserts.
    {
        let guild_2_emoji_ids = (11..=20).map(EmojiId).collect::<Vec<_>>();
        let guild_2_emojis = guild_2_emoji_ids
            .iter()
            .copied()
            .map(|id| emoji(id, user_mod(id)))
            .collect::<Vec<_>>();
        cache.cache_emojis(GuildId(2), guild_2_emojis);

        for id in guild_2_emoji_ids.iter().cloned() {
            let global_emoji = cache.emoji(id);
            assert!(global_emoji.is_some());
        }

        let guild_emojis = cache.guild_emojis(GuildId(2));

        assert!(guild_emojis.is_some());
        let guild_emojis = guild_emojis.unwrap();
        assert_eq!(guild_2_emoji_ids.len(), guild_emojis.len());
        assert!(guild_2_emoji_ids.iter().all(|id| guild_emojis.contains(id)));
    }
}

#[test]
fn test_clear() {
    let mut cache = InMemoryCache::new();
    cache.cache_emoji(GuildId(1), emoji(EmojiId(3), None));
    cache.cache_member(GuildId(2), member(UserId(4)));
    cache.clear();
    assert!(cache.emojis.is_empty());
    assert!(cache.members.is_empty());
}

#[test]
fn test_emoji_removal() {
    let mut cache = InMemoryCache::new();

    let guild_id = GuildId(1);

    let emote = emoji(EmojiId(1), None);
    let emote_2 = emoji(EmojiId(2), None);
    let emote_3 = emoji(EmojiId(3), None);

    cache.cache_emoji(guild_id, emote.clone());
    cache.cache_emoji(guild_id, emote_2.clone());
    cache.cache_emoji(guild_id, emote_3.clone());

    cache.update(Event::GuildEmojisUpdate {
        emojis: vec![emote.clone(), emote_3.clone()],
        guild_id,
    });

    assert_eq!(cache.emojis.len(), 2);
    assert_eq!(cache.guild_emojis(guild_id).unwrap().len(), 2);
    assert!(cache.emoji(emote.id).is_some());
    assert!(cache.emoji(emote_2.id).is_none());
    assert!(cache.emoji(emote_3.id).is_some());

    cache.update(Event::GuildEmojisUpdate {
        emojis: vec![emote.clone()],
        guild_id,
    });

    assert_eq!(cache.emojis.len(), 1);
    assert_eq!(cache.guild_emojis(guild_id).unwrap().len(), 1);
    assert!(cache.emoji(emote.id).is_some());
    assert!(cache.emoji(emote_2.id).is_none());

    let emote_4 = emoji(EmojiId(4), None);

    cache.update(Event::GuildEmojisUpdate {
        emojis: vec![emote_4.clone()],
        guild_id,
    });

    assert_eq!(cache.emojis.len(), 1);
    assert_eq!(cache.guild_emojis(guild_id).unwrap().len(), 1);
    assert!(cache.emoji(emote_4.id).is_some());
    assert!(cache.emoji(emote.id).is_none());

    cache.update(Event::GuildEmojisUpdate {
        emojis: vec![],
        guild_id,
    });

    assert!(cache.emojis.is_empty());
    assert!(cache.guild_emojis(guild_id).unwrap().is_empty());
}
