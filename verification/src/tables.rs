//! The three keyed collections of the store. Each is a hash map of
//! `bevy::utils`, kept behind a handful of calls whose contracts say what
//! the call does to the map's contents.

use crate::extractor::{Response, ResponseView};
use crate::query::{query_views, InFlightKey, Query, QueryView, ResourceKey};
use bevy::utils::HashMap;
use std::collections::VecDeque;
use vstd::prelude::*;

verus! {

/// The mathematical value of a [`CacheEntry`].
pub struct CacheEntryView {
    pub response: ResponseView,
    pub query: QueryView,
    pub timestamp: u128,
}

/// A finished request: the normalized answer, the request that asked for it
/// and the time of arrival in milliseconds since the epoch.
#[derive(Debug)]
pub struct CacheEntry {
    pub response: Response,
    pub query: Query,
    pub timestamp: u128,
}

impl View for CacheEntry {
    type V = CacheEntryView;

    open spec fn view(&self) -> CacheEntryView {
        CacheEntryView {
            response: self.response@,
            query: self.query@,
            timestamp: self.timestamp,
        }
    }
}

/// A map has size `n` when it has finitely many keys, `n` of them.
pub open spec fn has_size<K, V>(map: Map<K, V>, n: nat) -> bool {
    map.dom().finite() && map.len() == n
}

/// The finished requests, one entry per resource: a `bevy::utils::HashMap`
/// from the resource key to the entry.
#[verifier::external_body]
#[derive(Debug)]
pub struct Cache {
    entries: HashMap<(String, String), CacheEntry>,
}

/// The entries that a cache holds, by the value of their key.
pub uninterp spec fn cache_entries(cache: Cache) -> Map<ResourceKey, CacheEntryView>;

impl View for Cache {
    type V = Map<ResourceKey, CacheEntryView>;

    open spec fn view(&self) -> Map<ResourceKey, CacheEntryView> {
        cache_entries(*self)
    }
}

impl Cache {
    /// Calls `HashMap::default`: a map without entries.
    #[verifier::external_body]
    pub(crate) fn map_new() -> (r: Cache)
        ensures
            cache_entries(r).is_empty(),
    {
        Cache { entries: HashMap::default() }
    }

    /// Calls `HashMap::len`: the number of entries, which is finite.
    #[verifier::external_body]
    pub(crate) fn map_len(&self) -> (r: usize)
        ensures
            has_size(cache_entries(*self), r as nat),
    {
        self.entries.len()
    }

    /// Calls `HashMap::get`: the entry under `key`, if the map has one.
    #[verifier::external_body]
    pub(crate) fn map_get(&self, key: &(String, String)) -> (r: Option<&CacheEntry>)
        ensures
            r.is_some() == cache_entries(*self).contains_key(key.deep_view()),
            r matches Some(entry) ==> entry@ == cache_entries(*self)[key.deep_view()],
    {
        self.entries.get(key)
    }

    /// Calls `HashMap::insert`: afterwards `key` leads to `entry`, whatever
    /// it led to before, and every other key is as it was.
    #[verifier::external_body]
    pub(crate) fn map_insert(&mut self, key: (String, String), entry: CacheEntry)
        ensures
            cache_entries(*final(self)) == cache_entries(*old(self)).insert(
                key.deep_view(),
                entry@,
            ),
    {
        self.entries.insert(key, entry);
    }

    /// Calls `HashMap::remove`: the entry under `key` leaves the map and is
    /// returned, if there was one; every other key is as it was.
    #[verifier::external_body]
    pub(crate) fn map_remove(&mut self, key: &(String, String)) -> (r: Option<CacheEntry>)
        ensures
            cache_entries(*final(self)) == cache_entries(*old(self)).remove(key.deep_view()),
            r.is_some() == cache_entries(*old(self)).contains_key(key.deep_view()),
            r matches Some(entry) ==> entry@ == cache_entries(*old(self))[key.deep_view()],
    {
        self.entries.remove(key)
    }

    /// A cache without entries.
    pub fn new() -> (r: Cache)
        ensures
            r@ == Map::<ResourceKey, CacheEntryView>::empty(),
    {
        Cache::map_new()
    }

    /// The number of entries.
    pub fn len(&self) -> (r: usize)
        ensures
            self@.dom().finite(),
            r == self@.len(),
    {
        self.map_len()
    }

    /// Whether the cache holds nothing.
    pub fn is_empty(&self) -> (r: bool)
        ensures
            r == self@.is_empty(),
    {
        self.map_len() == 0
    }

    /// The entry of the resource `key`, if it is cached.
    pub fn get(&self, key: &(String, String)) -> (r: Option<&CacheEntry>)
        ensures
            r.is_some() == self@.contains_key(key.deep_view()),
            r matches Some(entry) ==> entry@ == self@[key.deep_view()],
    {
        self.map_get(key)
    }

    /// Whether the resource `key` is cached.
    pub fn contains_key(&self, key: &(String, String)) -> (r: bool)
        ensures
            r == self@.contains_key(key.deep_view()),
    {
        self.map_get(key).is_some()
    }
}

/// The requests that are running, one per in-flight key: a
/// `bevy::utils::HashMap` from the in-flight key to the request.
#[verifier::external_body]
#[derive(Debug)]
pub struct LoadingRequests {
    running: HashMap<(String, String, Option<String>), Query>,
}

/// The requests that are running, by the value of their key.
pub uninterp spec fn loading_queries(loading: LoadingRequests) -> Map<InFlightKey, QueryView>;

impl View for LoadingRequests {
    type V = Map<InFlightKey, QueryView>;

    open spec fn view(&self) -> Map<InFlightKey, QueryView> {
        loading_queries(*self)
    }
}

impl LoadingRequests {
    /// Calls `HashMap::default`: a map without entries.
    #[verifier::external_body]
    pub(crate) fn map_new() -> (r: LoadingRequests)
        ensures
            loading_queries(r).is_empty(),
    {
        LoadingRequests { running: HashMap::default() }
    }

    /// Calls `HashMap::len`: the number of entries, which is finite.
    #[verifier::external_body]
    pub(crate) fn map_len(&self) -> (r: usize)
        ensures
            has_size(loading_queries(*self), r as nat),
    {
        self.running.len()
    }

    /// Calls `HashMap::contains_key`: whether the map has an entry under
    /// `key`.
    #[verifier::external_body]
    pub(crate) fn map_contains_key(&self, key: &(String, String, Option<String>)) -> (r: bool)
        ensures
            r == loading_queries(*self).contains_key(key.deep_view()),
    {
        self.running.contains_key(key)
    }

    /// Calls `HashMap::insert`: afterwards `key` leads to `query`, whatever
    /// it led to before, and every other key is as it was.
    #[verifier::external_body]
    pub(crate) fn map_insert(&mut self, key: (String, String, Option<String>), query: Query)
        ensures
            loading_queries(*final(self)) == loading_queries(*old(self)).insert(
                key.deep_view(),
                query@,
            ),
    {
        self.running.insert(key, query);
    }

    /// Calls `HashMap::remove`: the request under `key` leaves the map and
    /// is returned, if there was one; every other key is as it was.
    #[verifier::external_body]
    pub(crate) fn map_remove(&mut self, key: &(String, String, Option<String>)) -> (r: Option<
        Query,
    >)
        ensures
            loading_queries(*final(self)) == loading_queries(*old(self)).remove(key.deep_view()),
            r.is_some() == loading_queries(*old(self)).contains_key(key.deep_view()),
            r matches Some(query) ==> query@ == loading_queries(*old(self))[key.deep_view()],
    {
        self.running.remove(key)
    }

    /// A set of running requests that holds none.
    pub fn new() -> (r: LoadingRequests)
        ensures
            r@ == Map::<InFlightKey, QueryView>::empty(),
    {
        LoadingRequests::map_new()
    }

    /// The number of running requests.
    pub fn len(&self) -> (r: usize)
        ensures
            self@.dom().finite(),
            r == self@.len(),
    {
        self.map_len()
    }

    /// Whether no request is running.
    pub fn is_empty(&self) -> (r: bool)
        ensures
            r == self@.is_empty(),
    {
        self.map_len() == 0
    }

    /// Whether a request runs under `key`.
    pub fn contains_key(&self, key: &(String, String, Option<String>)) -> (r: bool)
        ensures
            r == self@.contains_key(key.deep_view()),
    {
        self.map_contains_key(key)
    }
}

/// The sequences that are under way: a `bevy::utils::HashMap` from the key
/// of a sequence to the steps that are left of it, the one that is running
/// first.
#[verifier::external_body]
#[derive(Debug)]
pub struct Sequences {
    queues: HashMap<String, VecDeque<Query>>,
}

/// The steps that are left of each sequence, by the value of its key.
pub uninterp spec fn sequence_queues(sequences: Sequences) -> Map<Seq<char>, Seq<QueryView>>;

impl View for Sequences {
    type V = Map<Seq<char>, Seq<QueryView>>;

    open spec fn view(&self) -> Map<Seq<char>, Seq<QueryView>> {
        sequence_queues(*self)
    }
}

impl Sequences {
    /// Calls `HashMap::default`: a map without entries.
    #[verifier::external_body]
    pub(crate) fn map_new() -> (r: Sequences)
        ensures
            sequence_queues(r).is_empty(),
    {
        Sequences { queues: HashMap::default() }
    }

    /// Calls `HashMap::get`: the queue under `key`, if the map has one.
    #[verifier::external_body]
    pub(crate) fn map_get(&self, key: &String) -> (r: Option<&VecDeque<Query>>)
        ensures
            r.is_some() == sequence_queues(*self).contains_key(key@),
            r matches Some(queue) ==> query_views(queue@) == sequence_queues(*self)[key@],
    {
        self.queues.get(key)
    }

    /// Calls `HashMap::insert`: afterwards `key` leads to `queue`, whatever
    /// it led to before, and every other key is as it was.
    #[verifier::external_body]
    pub(crate) fn map_insert(&mut self, key: String, queue: VecDeque<Query>)
        ensures
            sequence_queues(*final(self)) == sequence_queues(*old(self)).insert(
                key@,
                query_views(queue@),
            ),
    {
        self.queues.insert(key, queue);
    }

    /// Calls `HashMap::remove`: the queue under `key` leaves the map, if
    /// there was one; every other key is as it was.
    #[verifier::external_body]
    pub(crate) fn map_remove(&mut self, key: &String)
        ensures
            sequence_queues(*final(self)) == sequence_queues(*old(self)).remove(key@),
    {
        self.queues.remove(key);
    }

    /// A set of sequences that holds none.
    pub fn new() -> (r: Sequences)
        ensures
            r@ == Map::<Seq<char>, Seq<QueryView>>::empty(),
    {
        Sequences::map_new()
    }

    /// The steps that are left of the sequence `key`, if it is under way.
    pub fn get(&self, key: &String) -> (r: Option<&VecDeque<Query>>)
        ensures
            r.is_some() == self@.contains_key(key@),
            r matches Some(queue) ==> query_views(queue@) == self@[key@],
    {
        self.map_get(key)
    }
}

} // verus!
