use inmemory_cache::config::ResourceType;
use inmemory_cache::config::ResourceTypes;
use inmemory_cache::events::Event;
use inmemory_cache::ids::ChannelId;
use inmemory_cache::ids::GuildId;
use inmemory_cache::ids::IntegrationId;
use inmemory_cache::ids::InteractionId;
use inmemory_cache::ids::MessageId;
use inmemory_cache::ids::RoleId;
use inmemory_cache::ids::UserId;
use inmemory_cache::interaction::InteractionType;
use inmemory_cache::interaction::MessageComponent;
use inmemory_cache::interaction::MessageComponentData;
use inmemory_cache::model::Group;
use inmemory_cache::model::GuildIntegration;
use inmemory_cache::model::InteractionMember;
use inmemory_cache::model::Member;
use inmemory_cache::model::Message;
use inmemory_cache::model::Presence;
use inmemory_cache::model::PrivateChannel;
use inmemory_cache::model::Role;
use inmemory_cache::model::Status;
use inmemory_cache::model::User;
use inmemory_cache::model::UserOrId;
use inmemory_cache::model::VoiceState;
use inmemory_cache::InMemoryCache;

fn user(id: UserId) -> User {
    User {
        id,
        name: "user".to_owned(),
        discriminator: "0001".to_owned(),
        bot: false,
    }
}

fn role(id: RoleId) -> Role {
    Role {
        id,
        name: "test".to_owned(),
        permissions: 8,
        position: 2,
    }
}

fn member(id: UserId) -> Member {
    Member {
        user: user(id),
        roles: Vec::new(),
        nick: None,
        joined_at: None,
        premium_since: None,
        deaf: false,
        mute: false,
        pending: false,
    }
}

fn message(id: u64, channel: u64) -> Message {
    Message {
        id: MessageId(id),
        channel_id: ChannelId(channel),
        author: user(UserId(77)),
        content: "hello".to_owned(),
    }
}

fn voice_state(guild_id: GuildId, channel_id: Option<ChannelId>, user_id: UserId) -> VoiceState {
    VoiceState {
        channel_id,
        guild_id: Some(guild_id),
        user_id,
        deaf: false,
        mute: false,
        self_deaf: false,
        self_mute: false,
        session_id: "s".to_owned(),
    }
}

#[test]
fn test_role_upsert_idempotent() {
    let mut cache = InMemoryCache::new();
    cache.cache_role(GuildId(1), role(RoleId(7)));
    cache.cache_role(GuildId(1), role(RoleId(7)));
    assert_eq!(1, cache.stats().roles());
    assert_eq!(1, cache.guild_roles(GuildId(1)).unwrap().len());
    assert_eq!(role(RoleId(7)), cache.role(RoleId(7)).unwrap());
}

#[test]
fn test_member_upsert_idempotent() {
    let mut cache = InMemoryCache::new();
    cache.cache_member(GuildId(1), member(UserId(5)));
    cache.cache_member(GuildId(1), member(UserId(5)));
    assert_eq!(1, cache.stats().members());
    assert_eq!(1, cache.stats().users());
    assert_eq!(1, cache.user_ref(UserId(5)).unwrap().guilds.len());
}

#[test]
fn test_reference_counting_across_three_guilds() {
    let mut cache = InMemoryCache::new();
    let user_id = UserId(9);
    cache.cache_member(GuildId(1), member(user_id));
    cache.cache_member(GuildId(2), member(user_id));
    cache.cache_member(GuildId(3), member(user_id));
    assert_eq!(3, cache.user_ref(user_id).unwrap().guilds.len());

    cache.member_remove(GuildId(1), user_id);
    cache.member_remove(GuildId(2), user_id);
    // Still cached with exactly one guild reference.
    assert_eq!(1, cache.user_ref(user_id).unwrap().guilds.len());
    assert!(cache.user(user_id).is_some());

    cache.member_remove(GuildId(3), user_id);
    // The last reference is gone, so the user is no longer retrievable.
    assert!(cache.user(user_id).is_none());
}

#[test]
fn test_message_bounding_retains_most_recent() {
    let mut cache = InMemoryCache::builder().message_cache_size(3).build();
    for id in 1..=5u64 {
        cache.update(Event::MessageCreate(message(id, 10)));
    }
    let channel_id = ChannelId(10);
    // The oldest two messages are evicted; the most recent three remain.
    assert!(cache.message(channel_id, MessageId(1)).is_none());
    assert!(cache.message(channel_id, MessageId(2)).is_none());
    assert!(cache.message(channel_id, MessageId(3)).is_some());
    assert!(cache.message(channel_id, MessageId(4)).is_some());
    assert!(cache.message(channel_id, MessageId(5)).is_some());
}

#[test]
fn test_message_create_and_delete() {
    let mut cache = InMemoryCache::new();
    cache.update(Event::MessageCreate(message(1, 4)));
    let got = cache.message(ChannelId(4), MessageId(1)).unwrap();
    assert_eq!("hello", got.content);
    assert_eq!(UserId(77), got.author_id);

    cache.update(Event::MessageDelete {
        channel_id: ChannelId(4),
        message_id: MessageId(1),
    });
    assert!(cache.message(ChannelId(4), MessageId(1)).is_none());
}

#[test]
fn test_resource_gate_short_circuits() {
    let mut cache = InMemoryCache::builder()
        .resource_types(ResourceTypes::none())
        .build();
    cache.update(Event::RoleCreate {
        guild_id: GuildId(1),
        role: role(RoleId(2)),
    });
    assert!(cache.role(RoleId(2)).is_none());
    assert!(cache.guild_roles(GuildId(1)).is_none());

    let mut cache = InMemoryCache::builder()
        .resource_types(ResourceTypes::none().with(ResourceType::Role))
        .build();
    cache.update(Event::RoleCreate {
        guild_id: GuildId(1),
        role: role(RoleId(2)),
    });
    assert!(cache.role(RoleId(2)).is_some());
}

#[test]
fn test_resource_types_bitset() {
    let none = ResourceTypes::none();
    assert!(!none.contains(ResourceType::Role));
    let with_role = none.with(ResourceType::Role);
    assert!(with_role.contains(ResourceType::Role));
    assert!(!with_role.contains(ResourceType::Emoji));
    let all = ResourceTypes::all();
    assert!(all.contains(ResourceType::Message));
    assert!(all.contains(ResourceType::VoiceState));
}

#[test]
fn test_config_defaults() {
    let cache = InMemoryCache::new();
    let config = cache.config();
    assert_eq!(100, config.message_cache_size);
    assert!(config.resource_types.contains(ResourceType::Channel));
    assert!(config.resource_types.contains(ResourceType::UserCurrent));
}

#[test]
fn test_voice_flag_only_update_keeps_indices() {
    let mut cache = InMemoryCache::new();
    let (guild_id, channel_id, user_id) = (GuildId(1), ChannelId(11), UserId(1));
    cache.cache_voice_state(voice_state(guild_id, Some(channel_id), user_id));

    let mut updated = voice_state(guild_id, Some(channel_id), user_id);
    updated.mute = true;
    cache.cache_voice_state(updated);

    assert_eq!(1, cache.stats().voice_states());
    assert_eq!(1, cache.stats().voice_state_channels());
    assert_eq!(1, cache.stats().voice_state_guilds());
    assert!(cache.voice_state(user_id, guild_id).unwrap().mute);
}

#[test]
fn test_clear_leaves_lookups_absent() {
    let mut cache = InMemoryCache::new();
    cache.cache_role(GuildId(1), role(RoleId(2)));
    cache.cache_member(GuildId(1), member(UserId(3)));
    cache.cache_voice_state(voice_state(GuildId(1), Some(ChannelId(11)), UserId(3)));
    cache.clear();
    assert!(cache.role(RoleId(2)).is_none());
    assert!(cache.member(GuildId(1), UserId(3)).is_none());
    assert!(cache.user(UserId(3)).is_none());
    assert!(cache.voice_state(UserId(3), GuildId(1)).is_none());
    assert!(cache.guild_roles(GuildId(1)).is_none());
    assert_eq!(0, cache.stats().roles());
    assert_eq!(0, cache.stats().members());
    assert_eq!(0, cache.stats().users());
    assert_eq!(0, cache.stats().voice_states());
    // The configuration survives the clear.
    assert_eq!(100, cache.config().message_cache_size);
}

#[test]
fn test_presence_normalizes_user_shapes() {
    let mut cache = InMemoryCache::new();
    cache.update(Event::PresenceUpdate(Presence {
        user: UserOrId::UserId { id: UserId(4) },
        guild_id: GuildId(1),
        status: Status::Idle,
    }));
    cache.update(Event::PresenceUpdate(Presence {
        user: UserOrId::User(user(UserId(5))),
        guild_id: GuildId(1),
        status: Status::Online,
    }));
    assert_eq!(Status::Idle, cache.presence(GuildId(1), UserId(4)).unwrap().status);
    assert_eq!(Status::Online, cache.presence(GuildId(1), UserId(5)).unwrap().status);
    let ids = cache.guild_presences(GuildId(1)).unwrap();
    assert_eq!(2, ids.len());
    assert!(ids.contains(&UserId(4)));
    assert!(ids.contains(&UserId(5)));
}

#[test]
fn test_private_channel_and_group() {
    let mut cache = InMemoryCache::new();
    cache.update(Event::PrivateChannelCreate(PrivateChannel {
        id: ChannelId(8),
        recipient_ids: vec![UserId(1), UserId(2)],
    }));
    assert!(cache.private_channel(ChannelId(8)).is_some());
    cache.update(Event::PrivateChannelDelete(ChannelId(8)));
    assert!(cache.private_channel(ChannelId(8)).is_none());

    cache.update(Event::GroupCreate(Group {
        id: ChannelId(9),
        recipient_ids: vec![UserId(1), UserId(2), UserId(3)],
        name: Some("a group".to_owned()),
    }));
    assert_eq!(3, cache.group(ChannelId(9)).unwrap().recipient_ids.len());
    cache.update(Event::GroupDelete(ChannelId(9)));
    assert!(cache.group(ChannelId(9)).is_none());
}

#[test]
fn test_integration_create_and_delete() {
    let mut cache = InMemoryCache::new();
    cache.update(Event::IntegrationCreate {
        guild_id: GuildId(1),
        integration: GuildIntegration {
            id: IntegrationId(6),
            name: "bridge".to_owned(),
            enabled: true,
        },
    });
    assert_eq!(1, cache.stats().integrations());
    cache.update(Event::IntegrationDelete {
        guild_id: GuildId(1),
        integration_id: IntegrationId(6),
    });
    assert_eq!(0, cache.stats().integrations());
}

#[test]
fn test_unavailable_guild_round_trip() {
    let mut cache = InMemoryCache::new();
    let guild = inmemory_cache::model::Guild {
        id: GuildId(3),
        name: "g".to_owned(),
        owner_id: UserId(1),
        afk_timeout: 60,
        member_count: None,
        max_members: None,
        max_presences: None,
        preferred_locale: "en-US".to_owned(),
        unavailable: false,
        channels: Vec::new(),
        emojis: Vec::new(),
        members: Vec::new(),
        presences: Vec::new(),
        roles: Vec::new(),
        stage_instances: Vec::new(),
        voice_states: Vec::new(),
    };
    cache.update(Event::GuildCreate(guild));
    assert!(cache.guild(GuildId(3)).is_some());

    cache.update(Event::UnavailableGuild { guild_id: GuildId(3) });
    assert!(cache.guild(GuildId(3)).is_none());
    assert!(cache.unavailable_guilds.contains(&GuildId(3)));
    assert_eq!(1, cache.stats().unavailable_guilds());
}

#[test]
fn test_guild_create_seeds_empty_containers() {
    let mut cache = InMemoryCache::new();
    let guild = inmemory_cache::model::Guild {
        id: GuildId(4),
        name: "empty guild".to_owned(),
        owner_id: UserId(1),
        afk_timeout: 60,
        member_count: Some(0),
        max_members: None,
        max_presences: None,
        preferred_locale: "en-US".to_owned(),
        unavailable: false,
        channels: Vec::new(),
        emojis: Vec::new(),
        members: Vec::new(),
        presences: Vec::new(),
        roles: Vec::new(),
        stage_instances: Vec::new(),
        voice_states: Vec::new(),
    };
    cache.update(Event::GuildCreate(guild));
    // A seeded guild reads as an empty container, distinct from no
    // container at all for an unknown guild.
    assert_eq!(Some(0), cache.guild_channels(GuildId(4)).map(|v| v.len()));
    assert_eq!(Some(0), cache.guild_members(GuildId(4)).map(|v| v.len()));
    assert_eq!(Some(0), cache.guild_emojis(GuildId(4)).map(|v| v.len()));
    assert!(cache.guild_channels(GuildId(5)).is_none());
}

#[test]
fn test_interaction_member_inherits_flags() {
    let mut cache = InMemoryCache::new();
    let mut base = member(UserId(6));
    base.deaf = true;
    cache.cache_member(GuildId(1), base);
    assert_eq!(Some(true), cache.member(GuildId(1), UserId(6)).unwrap().deaf);

    let interaction_member = InteractionMember {
        id: UserId(6),
        roles: vec![RoleId(1)],
        nick: Some("nick".to_owned()),
        joined_at: None,
        premium_since: None,
    };
    cache.cache_borrowed_interaction_member(GuildId(1), &interaction_member);
    let cached = cache.member(GuildId(1), UserId(6)).unwrap();
    // The interaction payload carries no deafen flag, so the previous
    // record's flag is inherited.
    assert_eq!(Some(true), cached.deaf);
    assert_eq!(Some("nick".to_owned()), cached.nick);
}

#[test]
fn test_partial_member_upsert() {
    let mut cache = InMemoryCache::new();
    let partial = inmemory_cache::model::PartialMember {
        roles: vec![RoleId(3)],
        nick: Some("friend".to_owned()),
        joined_at: None,
        deaf: false,
        mute: true,
    };
    cache.cache_borrowed_partial_member(GuildId(1), &partial, UserId(8));
    let cached = cache.member(GuildId(1), UserId(8)).unwrap();
    assert_eq!(Some("friend".to_owned()), cached.nick);
    assert_eq!(Some(false), cached.deaf);
    assert_eq!(Some(true), cached.mute);
    assert!(!cached.pending);
    // No user arrives with a partial member, so none is cached.
    assert!(cache.user(UserId(8)).is_none());
    let members = cache.guild_members(GuildId(1)).unwrap();
    assert!(members.contains(&UserId(8)));
}

#[test]
fn test_message_component_payload() {
    let component = MessageComponent {
        id: InteractionId(1),
        kind: InteractionType::MessageComponent,
        token: "interaction-token".to_owned(),
        member: None,
        message: Some(message(2, 3)),
        guild_id: Some(GuildId(4)),
        channel_id: ChannelId(3),
        data: MessageComponentData {
            custom_id: "click_one".to_owned(),
            component_type: 2,
        },
    };
    assert_eq!(InteractionType::MessageComponent, component.kind);
    assert_eq!("click_one", component.data.custom_id);
    assert_eq!(2, component.data.component_type);
    assert_eq!(ChannelId(3), component.channel_id);
}
