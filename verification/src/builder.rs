//! A builder over the two configuration knobs: the enabled entity
//! categories and the per-channel message bound.

use crate::cache::spec_empty_cache;
use crate::cache::InMemoryCache;
use crate::config::Config;
use crate::config::ResourceTypes;
use vstd::prelude::*;

verus! {

/// Configures and constructs an [`InMemoryCache`].
pub struct InMemoryCacheBuilder {
    pub config: Config,
}

impl InMemoryCacheBuilder {
    /// A builder that starts from the default configuration.
    pub fn new() -> (b: Self)
        ensures
            forall|rt: crate::config::ResourceType| b.config.resource_types.spec_contains(rt),
            b.config.message_cache_size == crate::config::DEFAULT_MESSAGE_CACHE_SIZE,
    {
        InMemoryCacheBuilder { config: Config::new() }
    }

    /// Choose which entity categories the cache processes at all.
    pub fn resource_types(self, resource_types: ResourceTypes) -> (b: Self)
        ensures
            b.config == (Config { resource_types, ..self.config }),
    {
        InMemoryCacheBuilder { config: Config { resource_types, ..self.config } }
    }

    /// Choose how many messages are retained per channel.
    pub fn message_cache_size(self, message_cache_size: usize) -> (b: Self)
        ensures
            b.config == (Config { message_cache_size, ..self.config }),
    {
        InMemoryCacheBuilder { config: Config { message_cache_size, ..self.config } }
    }

    /// Construct the empty cache the builder describes.
    pub fn build(self) -> (r: InMemoryCache)
        ensures
            r@ == spec_empty_cache(self.config),
    {
        InMemoryCache::new_with_config(self.config)
    }
}

impl InMemoryCache {
    /// A builder to configure and construct a cache.
    pub fn builder() -> (b: InMemoryCacheBuilder)
        ensures
            forall|rt: crate::config::ResourceType| b.config.resource_types.spec_contains(rt),
            b.config.message_cache_size == crate::config::DEFAULT_MESSAGE_CACHE_SIZE,
    {
        InMemoryCacheBuilder::new()
    }
}

} // verus!
