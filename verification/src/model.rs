//! The entity types the cache stores and the payload types it consumes,
//! together with the mathematical view of each: strings become sequences of
//! characters, vectors become sequences, and the cached projection of a
//! payload is a spec function so that contracts can say exactly what is
//! stored. Every value handed to a caller is a clone; mutation happens only
//! inside the cache.

use crate::ids::ChannelId;
use crate::ids::EmojiId;
use crate::ids::GuildId;
use crate::ids::IntegrationId;
use crate::ids::MessageId;
use crate::ids::RoleId;
use crate::ids::StageId;
use crate::ids::UserId;
use crate::store::IdSet;
use vstd::prelude::*;

verus! {

/// The view of an optional string.
pub open spec fn opt_str_view(o: &Option<String>) -> Option<Seq<char>> {
    match o {
        Some(s) => Some(s@),
        None => None,
    }
}

/// Equality of optional strings, decided on the character sequences.
pub fn opt_str_eq(a: &Option<String>, b: &Option<String>) -> (r: bool)
    ensures
        r == (opt_str_view(a) == opt_str_view(b)),
{
    match (a, b) {
        (Some(x), Some(y)) => *x == *y,
        (None, None) => true,
        _ => false,
    }
}

pub(crate) fn clone_opt_str(o: &Option<String>) -> (r: Option<String>)
    ensures
        r == *o,
{
    match o {
        Some(s) => Some(s.clone()),
        None => None,
    }
}

pub(crate) fn clone_role_ids(v: &Vec<RoleId>) -> (r: Vec<RoleId>)
    ensures
        r@ == v@,
{
    let mut out: Vec<RoleId> = Vec::new();
    let mut i: usize = 0;
    while i < v.len()
        invariant
            i <= v@.len(),
            out@ == v@.subrange(0, i as int),
        decreases v@.len() - i,
    {
        out.push(v[i]);
        proof {
            assert(out@ =~= v@.subrange(0, i + 1));
        }
        i += 1;
    }
    proof {
        assert(out@ =~= v@);
    }
    out
}

pub(crate) fn clone_user_ids(v: &Vec<UserId>) -> (r: Vec<UserId>)
    ensures
        r@ == v@,
{
    let mut out: Vec<UserId> = Vec::new();
    let mut i: usize = 0;
    while i < v.len()
        invariant
            i <= v@.len(),
            out@ == v@.subrange(0, i as int),
        decreases v@.len() - i,
    {
        out.push(v[i]);
        proof {
            assert(out@ =~= v@.subrange(0, i + 1));
        }
        i += 1;
    }
    proof {
        assert(out@ =~= v@);
    }
    out
}

/// Equality of role-id vectors, decided element by element.
pub fn role_ids_eq(a: &Vec<RoleId>, b: &Vec<RoleId>) -> (r: bool)
    ensures
        r == (a@ == b@),
{
    if a.len() != b.len() {
        return false;
    }
    let mut i: usize = 0;
    while i < a.len()
        invariant
            a@.len() == b@.len(),
            i <= a@.len(),
            forall|j: int| 0 <= j < i ==> a@[j] == b@[j],
        decreases a@.len() - i,
    {
        if a[i].0 != b[i].0 {
            return false;
        }
        i += 1;
    }
    proof {
        assert(a@ =~= b@);
    }
    true
}

/// A value whose equality the cache decides at the level of views, as the
/// change-aware upsert requires.
pub trait ViewEq: View + Sized {
    /// Whether the two values have equal views.
    fn view_eq(&self, other: &Self) -> (b: bool)
        ensures
            b == (self@ == other@),
    ;
}

/// A user's profile, stored once no matter how many guilds see the user.
pub struct User {
    pub id: UserId,
    pub name: String,
    pub discriminator: String,
    pub bot: bool,
}

/// The view of a [`User`].
pub struct UserView {
    pub id: UserId,
    pub name: Seq<char>,
    pub discriminator: Seq<char>,
    pub bot: bool,
}

impl View for User {
    type V = UserView;

    open spec fn view(&self) -> UserView {
        UserView {
            id: self.id,
            name: self.name@,
            discriminator: self.discriminator@,
            bot: self.bot,
        }
    }
}

impl Clone for User {
    fn clone(&self) -> (r: Self)
        ensures
            r == *self,
    {
        User {
            id: self.id,
            name: self.name.clone(),
            discriminator: self.discriminator.clone(),
            bot: self.bot,
        }
    }
}

impl ViewEq for User {
    /// Equality of users, decided on the viewed fields.
    fn view_eq(&self, other: &User) -> (r: bool)
        ensures
            r == (self@ == other@),
    {
        self.id.0 == other.id.0 && self.name == other.name && self.discriminator
            == other.discriminator && self.bot == other.bot
    }
}

/// The cache's own identity; a single slot, not a map entry.
pub struct CurrentUser {
    pub id: UserId,
    pub name: String,
    pub discriminator: String,
    pub mfa_enabled: bool,
}

/// The view of a [`CurrentUser`].
pub struct CurrentUserView {
    pub id: UserId,
    pub name: Seq<char>,
    pub discriminator: Seq<char>,
    pub mfa_enabled: bool,
}

impl View for CurrentUser {
    type V = CurrentUserView;

    open spec fn view(&self) -> CurrentUserView {
        CurrentUserView {
            id: self.id,
            name: self.name@,
            discriminator: self.discriminator@,
            mfa_enabled: self.mfa_enabled,
        }
    }
}

impl Clone for CurrentUser {
    fn clone(&self) -> (r: Self)
        ensures
            r == *self,
    {
        CurrentUser {
            id: self.id,
            name: self.name.clone(),
            discriminator: self.discriminator.clone(),
            mfa_enabled: self.mfa_enabled,
        }
    }
}

/// What kind of guild channel a channel is.
#[derive(Clone, Copy, PartialEq, Eq, Structural, Debug)]
pub enum ChannelKind {
    Category,
    Text,
    Voice,
    Stage,
}

/// A channel belonging to a guild. The owning-guild field is injected by the
/// cache when the channel arrives inside a guild snapshot; it is never
/// trusted from the input.
pub struct GuildChannel {
    pub id: ChannelId,
    pub guild_id: Option<GuildId>,
    pub kind: ChannelKind,
    pub name: String,
    pub parent_id: Option<ChannelId>,
}

/// The view of a [`GuildChannel`].
pub struct GuildChannelView {
    pub id: ChannelId,
    pub guild_id: Option<GuildId>,
    pub kind: ChannelKind,
    pub name: Seq<char>,
    pub parent_id: Option<ChannelId>,
}

impl View for GuildChannel {
    type V = GuildChannelView;

    open spec fn view(&self) -> GuildChannelView {
        GuildChannelView {
            id: self.id,
            guild_id: self.guild_id,
            kind: self.kind,
            name: self.name@,
            parent_id: self.parent_id,
        }
    }
}

impl Clone for GuildChannel {
    fn clone(&self) -> (r: Self)
        ensures
            r == *self,
    {
        GuildChannel {
            id: self.id,
            guild_id: self.guild_id,
            kind: self.kind,
            name: self.name.clone(),
            parent_id: self.parent_id,
        }
    }
}

impl ViewEq for GuildChannel {
    /// Equality of guild channels, decided on the viewed fields.
    fn view_eq(&self, other: &GuildChannel) -> (r: bool)
        ensures
            r == (self@ == other@),
    {
        self.id.0 == other.id.0 && self.guild_id == other.guild_id && self.kind == other.kind
            && self.name == other.name && self.parent_id == other.parent_id
    }
}

/// A direct-message channel between the current user and one other party.
pub struct PrivateChannel {
    pub id: ChannelId,
    pub recipient_ids: Vec<UserId>,
}

/// The view of a [`PrivateChannel`].
pub struct PrivateChannelView {
    pub id: ChannelId,
    pub recipient_ids: Seq<UserId>,
}

impl View for PrivateChannel {
    type V = PrivateChannelView;

    open spec fn view(&self) -> PrivateChannelView {
        PrivateChannelView { id: self.id, recipient_ids: self.recipient_ids@ }
    }
}

impl Clone for PrivateChannel {
    fn clone(&self) -> (r: Self)
        ensures
            r@ == self@,
    {
        PrivateChannel { id: self.id, recipient_ids: clone_user_ids(&self.recipient_ids) }
    }
}

/// A group channel with several participants and no guild relation.
pub struct Group {
    pub id: ChannelId,
    pub recipient_ids: Vec<UserId>,
    pub name: Option<String>,
}

/// The view of a [`Group`].
pub struct GroupView {
    pub id: ChannelId,
    pub recipient_ids: Seq<UserId>,
    pub name: Option<Seq<char>>,
}

impl View for Group {
    type V = GroupView;

    open spec fn view(&self) -> GroupView {
        GroupView {
            id: self.id,
            recipient_ids: self.recipient_ids@,
            name: opt_str_view(&self.name),
        }
    }
}

impl Clone for Group {
    fn clone(&self) -> (r: Self)
        ensures
            r@ == self@,
    {
        Group {
            id: self.id,
            recipient_ids: clone_user_ids(&self.recipient_ids),
            name: clone_opt_str(&self.name),
        }
    }
}

/// A role as delivered by the platform, wrapped with its owning guild only
/// inside the cache.
#[derive(PartialEq, Eq, Debug)]
pub struct Role {
    pub id: RoleId,
    pub name: String,
    pub permissions: u64,
    pub position: u64,
}

/// The view of a [`Role`].
pub struct RoleView {
    pub id: RoleId,
    pub name: Seq<char>,
    pub permissions: u64,
    pub position: u64,
}

impl View for Role {
    type V = RoleView;

    open spec fn view(&self) -> RoleView {
        RoleView {
            id: self.id,
            name: self.name@,
            permissions: self.permissions,
            position: self.position,
        }
    }
}

impl Clone for Role {
    fn clone(&self) -> (r: Self)
        ensures
            r == *self,
    {
        Role {
            id: self.id,
            name: self.name.clone(),
            permissions: self.permissions,
            position: self.position,
        }
    }
}

impl ViewEq for Role {
    /// Equality of roles, decided on the viewed fields.
    fn view_eq(&self, other: &Role) -> (r: bool)
        ensures
            r == (self@ == other@),
    {
        self.id.0 == other.id.0 && self.name == other.name && self.permissions
            == other.permissions && self.position == other.position
    }
}

/// A stage instance, wrapped with its owning guild only inside the cache.
pub struct StageInstance {
    pub id: StageId,
    pub channel_id: ChannelId,
    pub guild_id: GuildId,
    pub topic: String,
}

/// The view of a [`StageInstance`].
pub struct StageInstanceView {
    pub id: StageId,
    pub channel_id: ChannelId,
    pub guild_id: GuildId,
    pub topic: Seq<char>,
}

impl View for StageInstance {
    type V = StageInstanceView;

    open spec fn view(&self) -> StageInstanceView {
        StageInstanceView {
            id: self.id,
            channel_id: self.channel_id,
            guild_id: self.guild_id,
            topic: self.topic@,
        }
    }
}

impl Clone for StageInstance {
    fn clone(&self) -> (r: Self)
        ensures
            r == *self,
    {
        StageInstance {
            id: self.id,
            channel_id: self.channel_id,
            guild_id: self.guild_id,
            topic: self.topic.clone(),
        }
    }
}

impl ViewEq for StageInstance {
    /// Equality of stage instances, decided on the viewed fields.
    fn view_eq(&self, other: &StageInstance) -> (r: bool)
        ensures
            r == (self@ == other@),
    {
        self.id.0 == other.id.0 && self.channel_id.0 == other.channel_id.0 && self.guild_id.0
            == other.guild_id.0 && self.topic == other.topic
    }
}

/// A guild integration, wrapped with its owning guild only inside the cache.
pub struct GuildIntegration {
    pub id: IntegrationId,
    pub name: String,
    pub enabled: bool,
}

/// The view of a [`GuildIntegration`].
pub struct GuildIntegrationView {
    pub id: IntegrationId,
    pub name: Seq<char>,
    pub enabled: bool,
}

impl View for GuildIntegration {
    type V = GuildIntegrationView;

    open spec fn view(&self) -> GuildIntegrationView {
        GuildIntegrationView { id: self.id, name: self.name@, enabled: self.enabled }
    }
}

impl Clone for GuildIntegration {
    fn clone(&self) -> (r: Self)
        ensures
            r == *self,
    {
        GuildIntegration { id: self.id, name: self.name.clone(), enabled: self.enabled }
    }
}

impl ViewEq for GuildIntegration {
    /// Equality of integrations, decided on the viewed fields.
    fn view_eq(&self, other: &GuildIntegration) -> (r: bool)
        ensures
            r == (self@ == other@),
    {
        self.id.0 == other.id.0 && self.name == other.name && self.enabled == other.enabled
    }
}

/// An entity wrapped with the guild that owns it, used only inside the store
/// so that a delete can find the owning scope; readers always receive the
/// bare value.
pub struct GuildItem<T> {
    pub data: T,
    pub guild_id: GuildId,
}

/// The view of a [`GuildItem`].
pub struct GuildItemView<V> {
    pub data: V,
    pub guild_id: GuildId,
}

impl<T: View> View for GuildItem<T> {
    type V = GuildItemView<T::V>;

    open spec fn view(&self) -> GuildItemView<T::V> {
        GuildItemView { data: self.data@, guild_id: self.guild_id }
    }
}

/// A custom emoji as delivered by the platform; the uploader may arrive as a
/// whole embedded user.
pub struct Emoji {
    pub id: EmojiId,
    pub name: String,
    pub animated: bool,
    pub managed: bool,
    pub require_colons: bool,
    pub available: bool,
    pub roles: Vec<RoleId>,
    pub user: Option<User>,
}

/// The view of an [`Emoji`].
pub struct EmojiView {
    pub id: EmojiId,
    pub name: Seq<char>,
    pub animated: bool,
    pub managed: bool,
    pub require_colons: bool,
    pub available: bool,
    pub roles: Seq<RoleId>,
    pub user: Option<UserView>,
}

/// The view of an optional user.
pub open spec fn opt_user_view(o: &Option<User>) -> Option<UserView> {
    match o {
        Some(u) => Some(u@),
        None => None,
    }
}

impl View for Emoji {
    type V = EmojiView;

    open spec fn view(&self) -> EmojiView {
        EmojiView {
            id: self.id,
            name: self.name@,
            animated: self.animated,
            managed: self.managed,
            require_colons: self.require_colons,
            available: self.available,
            roles: self.roles@,
            user: opt_user_view(&self.user),
        }
    }
}

impl Clone for Emoji {
    fn clone(&self) -> (r: Self)
        ensures
            r@ == self@,
    {
        Emoji {
            id: self.id,
            name: self.name.clone(),
            animated: self.animated,
            managed: self.managed,
            require_colons: self.require_colons,
            available: self.available,
            roles: clone_role_ids(&self.roles),
            user: match &self.user {
                Some(u) => Some(u.clone()),
                None => None,
            },
        }
    }
}

/// The cached projection of an emoji: the uploader is normalized to a
/// user-id back-reference, never embedded.
pub struct CachedEmoji {
    pub id: EmojiId,
    pub name: String,
    pub animated: bool,
    pub managed: bool,
    pub require_colons: bool,
    pub available: bool,
    pub roles: Vec<RoleId>,
    pub user_id: Option<UserId>,
}

/// The view of a [`CachedEmoji`].
pub struct CachedEmojiView {
    pub id: EmojiId,
    pub name: Seq<char>,
    pub animated: bool,
    pub managed: bool,
    pub require_colons: bool,
    pub available: bool,
    pub roles: Seq<RoleId>,
    pub user_id: Option<UserId>,
}

impl View for CachedEmoji {
    type V = CachedEmojiView;

    open spec fn view(&self) -> CachedEmojiView {
        CachedEmojiView {
            id: self.id,
            name: self.name@,
            animated: self.animated,
            managed: self.managed,
            require_colons: self.require_colons,
            available: self.available,
            roles: self.roles@,
            user_id: self.user_id,
        }
    }
}

impl Clone for CachedEmoji {
    fn clone(&self) -> (r: Self)
        ensures
            r@ == self@,
    {
        CachedEmoji {
            id: self.id,
            name: self.name.clone(),
            animated: self.animated,
            managed: self.managed,
            require_colons: self.require_colons,
            available: self.available,
            roles: clone_role_ids(&self.roles),
            user_id: self.user_id,
        }
    }
}

/// The cached projection of an emoji payload.
pub open spec fn emoji_to_cached(e: EmojiView) -> CachedEmojiView {
    CachedEmojiView {
        id: e.id,
        name: e.name,
        animated: e.animated,
        managed: e.managed,
        require_colons: e.require_colons,
        available: e.available,
        roles: e.roles,
        user_id: match e.user {
            Some(u) => Some(u.id),
            None => None,
        },
    }
}

impl CachedEmoji {
    /// Whether this cached emoji is exactly what caching the payload again
    /// would store.
    pub fn matches_emoji(&self, e: &Emoji) -> (r: bool)
        ensures
            r == (self@ == emoji_to_cached(e@)),
    {
        let user_matches = match (&self.user_id, &e.user) {
            (Some(uid), Some(u)) => uid.0 == u.id.0,
            (None, None) => true,
            _ => false,
        };
        self.id.0 == e.id.0 && self.name == e.name && self.animated == e.animated && self.managed
            == e.managed && self.require_colons == e.require_colons && self.available
            == e.available && role_ids_eq(&self.roles, &e.roles) && user_matches
    }
}

/// A guild member as delivered by the platform, embedding its whole user.
pub struct Member {
    pub user: User,
    pub roles: Vec<RoleId>,
    pub nick: Option<String>,
    pub joined_at: Option<String>,
    pub premium_since: Option<String>,
    pub deaf: bool,
    pub mute: bool,
    pub pending: bool,
}

/// The view of a [`Member`].
pub struct MemberView {
    pub user: UserView,
    pub roles: Seq<RoleId>,
    pub nick: Option<Seq<char>>,
    pub joined_at: Option<Seq<char>>,
    pub premium_since: Option<Seq<char>>,
    pub deaf: bool,
    pub mute: bool,
    pub pending: bool,
}

impl View for Member {
    type V = MemberView;

    open spec fn view(&self) -> MemberView {
        MemberView {
            user: self.user@,
            roles: self.roles@,
            nick: opt_str_view(&self.nick),
            joined_at: opt_str_view(&self.joined_at),
            premium_since: opt_str_view(&self.premium_since),
            deaf: self.deaf,
            mute: self.mute,
            pending: self.pending,
        }
    }
}

impl Clone for Member {
    fn clone(&self) -> (r: Self)
        ensures
            r@ == self@,
    {
        Member {
            user: self.user.clone(),
            roles: clone_role_ids(&self.roles),
            nick: clone_opt_str(&self.nick),
            joined_at: clone_opt_str(&self.joined_at),
            premium_since: clone_opt_str(&self.premium_since),
            deaf: self.deaf,
            mute: self.mute,
            pending: self.pending,
        }
    }
}

/// A guild member delivered without its user, which arrives separately.
pub struct PartialMember {
    pub roles: Vec<RoleId>,
    pub nick: Option<String>,
    pub joined_at: Option<String>,
    pub deaf: bool,
    pub mute: bool,
}

/// The view of a [`PartialMember`].
pub struct PartialMemberView {
    pub roles: Seq<RoleId>,
    pub nick: Option<Seq<char>>,
    pub joined_at: Option<Seq<char>>,
    pub deaf: bool,
    pub mute: bool,
}

impl View for PartialMember {
    type V = PartialMemberView;

    open spec fn view(&self) -> PartialMemberView {
        PartialMemberView {
            roles: self.roles@,
            nick: opt_str_view(&self.nick),
            joined_at: opt_str_view(&self.joined_at),
            deaf: self.deaf,
            mute: self.mute,
        }
    }
}

/// The member shape delivered inside an interaction: no deafen or mute
/// flags, and only the member's user id.
pub struct InteractionMember {
    pub id: UserId,
    pub roles: Vec<RoleId>,
    pub nick: Option<String>,
    pub joined_at: Option<String>,
    pub premium_since: Option<String>,
}

/// The view of an [`InteractionMember`].
pub struct InteractionMemberView {
    pub id: UserId,
    pub roles: Seq<RoleId>,
    pub nick: Option<Seq<char>>,
    pub joined_at: Option<Seq<char>>,
    pub premium_since: Option<Seq<char>>,
}

impl View for InteractionMember {
    type V = InteractionMemberView;

    open spec fn view(&self) -> InteractionMemberView {
        InteractionMemberView {
            id: self.id,
            roles: self.roles@,
            nick: opt_str_view(&self.nick),
            joined_at: opt_str_view(&self.joined_at),
            premium_since: opt_str_view(&self.premium_since),
        }
    }
}

/// The cached projection of a member: it references its user by id and does
/// not embed it.
pub struct CachedMember {
    pub guild_id: GuildId,
    pub user_id: UserId,
    pub roles: Vec<RoleId>,
    pub nick: Option<String>,
    pub joined_at: Option<String>,
    pub premium_since: Option<String>,
    pub deaf: Option<bool>,
    pub mute: Option<bool>,
    pub pending: bool,
}

/// The view of a [`CachedMember`].
pub struct CachedMemberView {
    pub guild_id: GuildId,
    pub user_id: UserId,
    pub roles: Seq<RoleId>,
    pub nick: Option<Seq<char>>,
    pub joined_at: Option<Seq<char>>,
    pub premium_since: Option<Seq<char>>,
    pub deaf: Option<bool>,
    pub mute: Option<bool>,
    pub pending: bool,
}

impl View for CachedMember {
    type V = CachedMemberView;

    open spec fn view(&self) -> CachedMemberView {
        CachedMemberView {
            guild_id: self.guild_id,
            user_id: self.user_id,
            roles: self.roles@,
            nick: opt_str_view(&self.nick),
            joined_at: opt_str_view(&self.joined_at),
            premium_since: opt_str_view(&self.premium_since),
            deaf: self.deaf,
            mute: self.mute,
            pending: self.pending,
        }
    }
}

impl Clone for CachedMember {
    fn clone(&self) -> (r: Self)
        ensures
            r@ == self@,
    {
        CachedMember {
            guild_id: self.guild_id,
            user_id: self.user_id,
            roles: clone_role_ids(&self.roles),
            nick: clone_opt_str(&self.nick),
            joined_at: clone_opt_str(&self.joined_at),
            premium_since: clone_opt_str(&self.premium_since),
            deaf: self.deaf,
            mute: self.mute,
            pending: self.pending,
        }
    }
}

/// The cached projection of a member payload for a guild.
pub open spec fn member_to_cached(guild_id: GuildId, m: MemberView) -> CachedMemberView {
    CachedMemberView {
        guild_id,
        user_id: m.user.id,
        roles: m.roles,
        nick: m.nick,
        joined_at: m.joined_at,
        premium_since: m.premium_since,
        deaf: Some(m.deaf),
        mute: Some(m.mute),
        pending: m.pending,
    }
}

/// Whether a cached member agrees with a member payload on every field the
/// payload carries.
pub open spec fn cached_matches_member(c: CachedMemberView, m: MemberView) -> bool {
    &&& c.user_id == m.user.id
    &&& c.roles == m.roles
    &&& c.nick == m.nick
    &&& c.joined_at == m.joined_at
    &&& c.premium_since == m.premium_since
    &&& c.deaf == Some(m.deaf)
    &&& c.mute == Some(m.mute)
    &&& c.pending == m.pending
}

/// Whether a cached member agrees with a partial-member payload on every
/// field the payload carries.
pub open spec fn cached_matches_partial(c: CachedMemberView, m: PartialMemberView) -> bool {
    &&& c.roles == m.roles
    &&& c.nick == m.nick
    &&& c.joined_at == m.joined_at
    &&& c.deaf == Some(m.deaf)
    &&& c.mute == Some(m.mute)
}

/// Whether a cached member agrees with an interaction-member payload on
/// every field the payload carries.
pub open spec fn cached_matches_interaction(c: CachedMemberView, m: InteractionMemberView) -> bool {
    &&& c.user_id == m.id
    &&& c.roles == m.roles
    &&& c.nick == m.nick
    &&& c.joined_at == m.joined_at
    &&& c.premium_since == m.premium_since
}

fn opt_bool_eq(a: &Option<bool>, b: &Option<bool>) -> (r: bool)
    ensures
        r == (*a == *b),
{
    match (a, b) {
        (Some(x), Some(y)) => *x == *y,
        (None, None) => true,
        _ => false,
    }
}

impl CachedMember {
    /// Whether this cached member agrees with the member payload.
    pub fn matches_member(&self, m: &Member) -> (r: bool)
        ensures
            r == cached_matches_member(self@, m@),
    {
        self.user_id.0 == m.user.id.0 && role_ids_eq(&self.roles, &m.roles) && opt_str_eq(
            &self.nick,
            &m.nick,
        ) && opt_str_eq(&self.joined_at, &m.joined_at) && opt_str_eq(
            &self.premium_since,
            &m.premium_since,
        ) && opt_bool_eq(&self.deaf, &Some(m.deaf)) && opt_bool_eq(&self.mute, &Some(m.mute))
            && self.pending == m.pending
    }

    /// Whether this cached member agrees with the partial-member payload.
    pub fn matches_partial(&self, m: &PartialMember) -> (r: bool)
        ensures
            r == cached_matches_partial(self@, m@),
    {
        role_ids_eq(&self.roles, &m.roles) && opt_str_eq(&self.nick, &m.nick) && opt_str_eq(
            &self.joined_at,
            &m.joined_at,
        ) && opt_bool_eq(&self.deaf, &Some(m.deaf)) && opt_bool_eq(&self.mute, &Some(m.mute))
    }

    /// Whether this cached member agrees with the interaction-member payload.
    pub fn matches_interaction(&self, m: &InteractionMember) -> (r: bool)
        ensures
            r == cached_matches_interaction(self@, m@),
    {
        self.user_id.0 == m.id.0 && role_ids_eq(&self.roles, &m.roles) && opt_str_eq(
            &self.nick,
            &m.nick,
        ) && opt_str_eq(&self.joined_at, &m.joined_at) && opt_str_eq(
            &self.premium_since,
            &m.premium_since,
        )
    }
}

/// A presence status summary.
#[derive(Clone, Copy, PartialEq, Eq, Structural, Debug)]
pub enum Status {
    Online,
    Idle,
    DoNotDisturb,
    Offline,
}

/// The user of a presence payload: either a whole embedded user or an id
/// alone.
pub enum UserOrId {
    User(User),
    UserId { id: UserId },
}

/// The view of a [`UserOrId`].
pub enum UserOrIdView {
    User(UserView),
    UserId { id: UserId },
}

impl View for UserOrId {
    type V = UserOrIdView;

    open spec fn view(&self) -> UserOrIdView {
        match self {
            UserOrId::User(u) => UserOrIdView::User(u@),
            UserOrId::UserId { id } => UserOrIdView::UserId { id: *id },
        }
    }
}

impl Clone for UserOrId {
    fn clone(&self) -> (r: Self)
        ensures
            r@ == self@,
    {
        match self {
            UserOrId::User(u) => UserOrId::User(u.clone()),
            UserOrId::UserId { id } => UserOrId::UserId { id: *id },
        }
    }
}

/// The user id a presence is about, whichever input shape it arrived in.
pub open spec fn spec_presence_user_id(u: UserOrIdView) -> UserId {
    match u {
        UserOrIdView::User(user) => user.id,
        UserOrIdView::UserId { id } => id,
    }
}

/// The user id a presence is about, whichever input shape it arrived in.
pub fn presence_user_id(user_or_id: &UserOrId) -> (r: UserId)
    ensures
        r == spec_presence_user_id(user_or_id@),
{
    match user_or_id {
        UserOrId::User(u) => u.id,
        UserOrId::UserId { id } => *id,
    }
}

/// A presence as delivered by the platform.
pub struct Presence {
    pub user: UserOrId,
    pub guild_id: GuildId,
    pub status: Status,
}

/// The view of a [`Presence`].
pub struct PresenceView {
    pub user: UserOrIdView,
    pub guild_id: GuildId,
    pub status: Status,
}

impl View for Presence {
    type V = PresenceView;

    open spec fn view(&self) -> PresenceView {
        PresenceView { user: self.user@, guild_id: self.guild_id, status: self.status }
    }
}

impl Clone for Presence {
    fn clone(&self) -> (r: Self)
        ensures
            r@ == self@,
    {
        Presence { user: self.user.clone(), guild_id: self.guild_id, status: self.status }
    }
}

/// The cached projection of a presence: the user is normalized to its id,
/// whichever input shape it arrived in.
#[derive(Clone, Copy, PartialEq, Eq, Structural, Debug)]
pub struct CachedPresence {
    pub user_id: UserId,
    pub guild_id: GuildId,
    pub status: Status,
}

impl View for CachedPresence {
    type V = CachedPresence;

    open spec fn view(&self) -> CachedPresence {
        *self
    }
}

/// The cached projection of a presence payload.
pub open spec fn presence_to_cached(p: PresenceView) -> CachedPresence {
    CachedPresence {
        user_id: spec_presence_user_id(p.user),
        guild_id: p.guild_id,
        status: p.status,
    }
}

/// A voice state as delivered by the platform. An absent channel id means
/// the user disconnected.
pub struct VoiceState {
    pub channel_id: Option<ChannelId>,
    pub guild_id: Option<GuildId>,
    pub user_id: UserId,
    pub deaf: bool,
    pub mute: bool,
    pub self_deaf: bool,
    pub self_mute: bool,
    pub session_id: String,
}

/// The view of a [`VoiceState`].
pub struct VoiceStateView {
    pub channel_id: Option<ChannelId>,
    pub guild_id: Option<GuildId>,
    pub user_id: UserId,
    pub deaf: bool,
    pub mute: bool,
    pub self_deaf: bool,
    pub self_mute: bool,
    pub session_id: Seq<char>,
}

impl View for VoiceState {
    type V = VoiceStateView;

    open spec fn view(&self) -> VoiceStateView {
        VoiceStateView {
            channel_id: self.channel_id,
            guild_id: self.guild_id,
            user_id: self.user_id,
            deaf: self.deaf,
            mute: self.mute,
            self_deaf: self.self_deaf,
            self_mute: self.self_mute,
            session_id: self.session_id@,
        }
    }
}

impl Clone for VoiceState {
    fn clone(&self) -> (r: Self)
        ensures
            r == *self,
    {
        VoiceState {
            channel_id: self.channel_id,
            guild_id: self.guild_id,
            user_id: self.user_id,
            deaf: self.deaf,
            mute: self.mute,
            self_deaf: self.self_deaf,
            self_mute: self.self_mute,
            session_id: self.session_id.clone(),
        }
    }
}

/// A message as delivered by the platform.
pub struct Message {
    pub id: MessageId,
    pub channel_id: ChannelId,
    pub author: User,
    pub content: String,
}

/// The view of a [`Message`].
pub struct MessageView {
    pub id: MessageId,
    pub channel_id: ChannelId,
    pub author: UserView,
    pub content: Seq<char>,
}

impl View for Message {
    type V = MessageView;

    open spec fn view(&self) -> MessageView {
        MessageView {
            id: self.id,
            channel_id: self.channel_id,
            author: self.author@,
            content: self.content@,
        }
    }
}

impl Clone for Message {
    fn clone(&self) -> (r: Self)
        ensures
            r == *self,
    {
        Message {
            id: self.id,
            channel_id: self.channel_id,
            author: self.author.clone(),
            content: self.content.clone(),
        }
    }
}

/// The cached projection of a message: a content summary whose author is a
/// user-id back-reference.
pub struct CachedMessage {
    pub id: MessageId,
    pub channel_id: ChannelId,
    pub author_id: UserId,
    pub content: String,
}

/// The view of a [`CachedMessage`].
pub struct CachedMessageView {
    pub id: MessageId,
    pub channel_id: ChannelId,
    pub author_id: UserId,
    pub content: Seq<char>,
}

impl View for CachedMessage {
    type V = CachedMessageView;

    open spec fn view(&self) -> CachedMessageView {
        CachedMessageView {
            id: self.id,
            channel_id: self.channel_id,
            author_id: self.author_id,
            content: self.content@,
        }
    }
}

impl Clone for CachedMessage {
    fn clone(&self) -> (r: Self)
        ensures
            r == *self,
    {
        CachedMessage {
            id: self.id,
            channel_id: self.channel_id,
            author_id: self.author_id,
            content: self.content.clone(),
        }
    }
}

/// The cached projection of a message payload.
pub open spec fn message_to_cached(m: MessageView) -> CachedMessageView {
    CachedMessageView {
        id: m.id,
        channel_id: m.channel_id,
        author_id: m.author.id,
        content: m.content,
    }
}

/// The cached projection of a guild: settings, flags and counts; relations
/// to the guild's children live in the index sets, never in the record.
pub struct CachedGuild {
    pub id: GuildId,
    pub name: String,
    pub owner_id: UserId,
    pub afk_timeout: u64,
    pub member_count: Option<u64>,
    pub max_members: Option<u64>,
    pub max_presences: Option<u64>,
    pub preferred_locale: String,
    pub unavailable: bool,
}

/// The view of a [`CachedGuild`].
pub struct CachedGuildView {
    pub id: GuildId,
    pub name: Seq<char>,
    pub owner_id: UserId,
    pub afk_timeout: u64,
    pub member_count: Option<u64>,
    pub max_members: Option<u64>,
    pub max_presences: Option<u64>,
    pub preferred_locale: Seq<char>,
    pub unavailable: bool,
}

impl View for CachedGuild {
    type V = CachedGuildView;

    open spec fn view(&self) -> CachedGuildView {
        CachedGuildView {
            id: self.id,
            name: self.name@,
            owner_id: self.owner_id,
            afk_timeout: self.afk_timeout,
            member_count: self.member_count,
            max_members: self.max_members,
            max_presences: self.max_presences,
            preferred_locale: self.preferred_locale@,
            unavailable: self.unavailable,
        }
    }
}

impl Clone for CachedGuild {
    fn clone(&self) -> (r: Self)
        ensures
            r == *self,
    {
        CachedGuild {
            id: self.id,
            name: self.name.clone(),
            owner_id: self.owner_id,
            afk_timeout: self.afk_timeout,
            member_count: self.member_count,
            max_members: self.max_members,
            max_presences: self.max_presences,
            preferred_locale: self.preferred_locale.clone(),
            unavailable: self.unavailable,
        }
    }
}

/// A whole guild snapshot as delivered by the platform: the guild's own
/// record together with complete collections of its children.
pub struct Guild {
    pub id: GuildId,
    pub name: String,
    pub owner_id: UserId,
    pub afk_timeout: u64,
    pub member_count: Option<u64>,
    pub max_members: Option<u64>,
    pub max_presences: Option<u64>,
    pub preferred_locale: String,
    pub unavailable: bool,
    pub channels: Vec<GuildChannel>,
    pub emojis: Vec<Emoji>,
    pub members: Vec<Member>,
    pub presences: Vec<Presence>,
    pub roles: Vec<Role>,
    pub stage_instances: Vec<StageInstance>,
    pub voice_states: Vec<VoiceState>,
}

/// The view of a [`Guild`].
pub struct GuildView {
    pub id: GuildId,
    pub name: Seq<char>,
    pub owner_id: UserId,
    pub afk_timeout: u64,
    pub member_count: Option<u64>,
    pub max_members: Option<u64>,
    pub max_presences: Option<u64>,
    pub preferred_locale: Seq<char>,
    pub unavailable: bool,
    pub channels: Seq<GuildChannelView>,
    pub emojis: Seq<EmojiView>,
    pub members: Seq<MemberView>,
    pub presences: Seq<PresenceView>,
    pub roles: Seq<RoleView>,
    pub stage_instances: Seq<StageInstanceView>,
    pub voice_states: Seq<VoiceStateView>,
}

impl View for Guild {
    type V = GuildView;

    open spec fn view(&self) -> GuildView {
        GuildView {
            id: self.id,
            name: self.name@,
            owner_id: self.owner_id,
            afk_timeout: self.afk_timeout,
            member_count: self.member_count,
            max_members: self.max_members,
            max_presences: self.max_presences,
            preferred_locale: self.preferred_locale@,
            unavailable: self.unavailable,
            channels: self.channels@.map_values(|c: GuildChannel| c@),
            emojis: self.emojis@.map_values(|e: Emoji| e@),
            members: self.members@.map_values(|m: Member| m@),
            presences: self.presences@.map_values(|p: Presence| p@),
            roles: self.roles@.map_values(|r: Role| r@),
            stage_instances: self.stage_instances@.map_values(|s: StageInstance| s@),
            voice_states: self.voice_states@.map_values(|v: VoiceState| v@),
        }
    }
}

/// The guild record a guild snapshot stores.
pub open spec fn guild_to_cached(g: GuildView) -> CachedGuildView {
    CachedGuildView {
        id: g.id,
        name: g.name,
        owner_id: g.owner_id,
        afk_timeout: g.afk_timeout,
        member_count: g.member_count,
        max_members: g.max_members,
        max_presences: g.max_presences,
        preferred_locale: g.preferred_locale,
        unavailable: g.unavailable,
    }
}

/// A user record together with the set of guilds currently referencing it;
/// the record lives exactly as long as the set is non-empty.
pub struct UserEntry {
    pub user: User,
    pub guilds: IdSet<GuildId>,
}

/// The view of a [`UserEntry`].
pub struct UserEntryView {
    pub user: UserView,
    pub guilds: Set<GuildId>,
}

impl View for UserEntry {
    type V = UserEntryView;

    open spec fn view(&self) -> UserEntryView {
        UserEntryView { user: self.user@, guilds: self.guilds@ }
    }
}

} // verus!
