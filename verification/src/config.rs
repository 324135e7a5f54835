//! The cache's configuration: which entity categories are cached at all (a
//! bitset consulted by every mutating entry point) and how many messages are
//! retained per channel.

use vstd::prelude::*;

verus! {

/// A category of cached entity, independently enablable.
#[derive(Clone, Copy, PartialEq, Eq, Structural, Debug)]
pub enum ResourceType {
    Channel,
    Emoji,
    Guild,
    Integration,
    Member,
    Message,
    Presence,
    Role,
    StageInstance,
    User,
    UserCurrent,
    VoiceState,
}

impl ResourceType {
    /// The bit index of this category inside a [`ResourceTypes`] bitset.
    pub open spec fn spec_bit(self) -> u32 {
        match self {
            ResourceType::Channel => 0,
            ResourceType::Emoji => 1,
            ResourceType::Guild => 2,
            ResourceType::Integration => 3,
            ResourceType::Member => 4,
            ResourceType::Message => 5,
            ResourceType::Presence => 6,
            ResourceType::Role => 7,
            ResourceType::StageInstance => 8,
            ResourceType::User => 9,
            ResourceType::UserCurrent => 10,
            ResourceType::VoiceState => 11,
        }
    }

    /// The bit index of this category inside a [`ResourceTypes`] bitset.
    #[verifier::when_used_as_spec(spec_bit)]
    pub fn bit(self) -> (r: u32)
        ensures
            r == self.spec_bit(),
    {
        match self {
            ResourceType::Channel => 0,
            ResourceType::Emoji => 1,
            ResourceType::Guild => 2,
            ResourceType::Integration => 3,
            ResourceType::Member => 4,
            ResourceType::Message => 5,
            ResourceType::Presence => 6,
            ResourceType::Role => 7,
            ResourceType::StageInstance => 8,
            ResourceType::User => 9,
            ResourceType::UserCurrent => 10,
            ResourceType::VoiceState => 11,
        }
    }
}

/// A bitset of enabled entity categories; one bit per [`ResourceType`].
#[derive(Clone, Copy, PartialEq, Eq, Structural, Debug)]
pub struct ResourceTypes {
    pub bits: u32,
}

impl ResourceTypes {
    /// Whether the category's bit is set.
    pub open spec fn spec_contains(self, rt: ResourceType) -> bool {
        self.bits & (1u32 << rt.spec_bit()) != 0
    }

    /// Whether the category's bit is set.
    #[verifier::when_used_as_spec(spec_contains)]
    pub fn contains(self, rt: ResourceType) -> (r: bool)
        ensures
            r == self.spec_contains(rt),
    {
        self.bits & (1u32 << rt.bit()) != 0
    }

    /// The set with every category enabled.
    pub fn all() -> (r: Self)
        ensures
            forall|rt: ResourceType| r.spec_contains(rt),
    {
        let r = ResourceTypes { bits: 0xfff };
        proof {
            assert forall|rt: ResourceType| r.spec_contains(rt) by {
                let b = rt.spec_bit();
                assert(b < 12);
                assert(0xfffu32 & (1u32 << b) != 0 <== b < 12) by (bit_vector);
            }
        }
        r
    }

    /// The set with no category enabled.
    pub fn none() -> (r: Self)
        ensures
            forall|rt: ResourceType| !r.spec_contains(rt),
    {
        let r = ResourceTypes { bits: 0 };
        proof {
            assert forall|rt: ResourceType| !r.spec_contains(rt) by {
                let b = rt.spec_bit();
                assert(0u32 & (1u32 << b) == 0) by (bit_vector);
            }
        }
        r
    }

    /// The set with one more category enabled.
    pub fn with(self, rt: ResourceType) -> (r: Self)
        ensures
            forall|o: ResourceType| #[trigger]
                r.spec_contains(o) == (self.spec_contains(o) || o == rt),
    {
        let r = ResourceTypes { bits: self.bits | (1u32 << rt.bit()) };
        proof {
            assert forall|o: ResourceType| #[trigger]
                r.spec_contains(o) == (self.spec_contains(o) || o == rt) by {
                let x = self.bits;
                let i = rt.spec_bit();
                let j = o.spec_bit();
                assert(((x | (1u32 << i)) & (1u32 << j) != 0) == ((x & (1u32 << j) != 0) || ((1u32
                    << i) & (1u32 << j) != 0))) by (bit_vector);
                if i == j {
                    assert((1u32 << i) & (1u32 << j) != 0 <== i == j && i < 32) by (bit_vector);
                    assert(i < 12);
                } else {
                    assert((1u32 << i) & (1u32 << j) == 0 <== i != j) by (bit_vector);
                    assert(o != rt);
                }
            }
        }
        r
    }
}

/// The number of messages retained per channel when nothing else is asked
/// for.
pub const DEFAULT_MESSAGE_CACHE_SIZE: usize = 100;

/// The active configuration of a cache: the enabled categories and the
/// per-channel message bound.
#[derive(Clone, Copy, PartialEq, Eq, Structural, Debug)]
pub struct Config {
    pub resource_types: ResourceTypes,
    pub message_cache_size: usize,
}

impl Config {
    /// The configuration a cache starts from: every category enabled and the
    /// default message bound.
    pub fn new() -> (c: Self)
        ensures
            forall|rt: ResourceType| c.resource_types.spec_contains(rt),
            c.message_cache_size == DEFAULT_MESSAGE_CACHE_SIZE,
    {
        Config { resource_types: ResourceTypes::all(), message_cache_size: DEFAULT_MESSAGE_CACHE_SIZE }
    }
}

} // verus!
