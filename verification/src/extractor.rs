//! The read side of the store: what a consumer asks for and what it gets.

use crate::json::clone_json;
use crate::model::{completed, is_stale, reading};
use crate::query::{key_or_empty, query_views, ResourceKey};
use crate::tables::Cache;
use crate::tasks::QueryStore;
use std::collections::VecDeque;
use vstd::prelude::*;

verus! {

/// The mathematical value of a [`QueryConsumable`].
pub struct QueryConsumableView {
    pub url: Seq<char>,
    pub query_key: Option<Seq<char>>,
    pub force_next_refetch: bool,
    pub stale_time: Option<u128>,
}

impl QueryConsumableView {
    /// The key of the cache entry that is asked for.
    pub open spec fn resource_key(self) -> ResourceKey {
        (self.url, key_or_empty(self.query_key))
    }
}

/// What a consumer asks the cache for.
#[derive(Debug)]
pub struct QueryConsumable {
    pub url: String,
    pub query_key: Option<String>,
    /// Take the entry out of the cache, so that the next request for the
    /// resource is sent off again.
    pub force_next_refetch: bool,
    /// The age in milliseconds beyond which an entry is stale.
    pub stale_time: Option<u128>,
}

impl View for QueryConsumable {
    type V = QueryConsumableView;

    open spec fn view(&self) -> QueryConsumableView {
        QueryConsumableView {
            url: self.url@,
            query_key: self.query_key.deep_view(),
            force_next_refetch: self.force_next_refetch,
            stale_time: self.stale_time,
        }
    }
}

impl QueryConsumable {
    /// The key of the cache entry that is asked for.
    pub fn resource_key(&self) -> (r: (String, String))
        ensures
            r.deep_view() == self@.resource_key(),
    {
        let filed = match &self.query_key {
            Some(key) => key.clone(),
            None => String::new(),
        };
        (self.url.clone(), filed)
    }
}

impl Default for QueryConsumable {
    fn default() -> (r: Self)
        ensures
            r@.url == Seq::<char>::empty(),
            r@.query_key.is_none(),
            !r@.force_next_refetch,
            r@.stale_time.is_none(),
    {
        QueryConsumable {
            url: String::new(),
            query_key: None,
            force_next_refetch: false,
            stale_time: None,
        }
    }
}

impl Clone for QueryConsumable {
    fn clone(&self) -> (r: Self)
        ensures
            r@ == self@,
    {
        QueryConsumable {
            url: self.url.clone(),
            query_key: match &self.query_key {
                Some(key) => Some(key.clone()),
                None => None,
            },
            force_next_refetch: self.force_next_refetch,
            stale_time: self.stale_time,
        }
    }
}

/// What a consumer asks of the steps of a sequence: one request per step.
#[derive(Debug)]
pub struct QuerySequenceConsumeable {
    pub key: String,
    pub tasks: VecDeque<QueryConsumable>,
}

/// The shape of a body that carries one message.
#[derive(Debug, PartialEq)]
pub struct TMessageResponse {
    pub msg: String,
}

impl Clone for TMessageResponse {
    fn clone(&self) -> (r: Self)
        ensures
            r == *self,
    {
        TMessageResponse { msg: self.msg.clone() }
    }
}

/// The shape of the body of an error answer.
#[derive(Debug, PartialEq)]
pub struct ErrorResponse {
    pub msg: String,
    pub status: String,
}

impl Clone for ErrorResponse {
    fn clone(&self) -> (r: Self)
        ensures
            r == *self,
    {
        ErrorResponse { msg: self.msg.clone(), status: self.status.clone() }
    }
}

/// The mathematical value of a [`Response`].
pub struct ResponseView {
    pub msg: Option<Seq<char>>,
    pub status: u16,
    pub body: Option<serde_json::Value>,
}

/// The normalized answer to a request, as the cache keeps it.
#[derive(Debug)]
pub struct Response {
    pub msg: Option<String>,
    pub status: u16,
    pub body: Option<serde_json::Value>,
}

impl View for Response {
    type V = ResponseView;

    open spec fn view(&self) -> ResponseView {
        ResponseView { msg: self.msg.deep_view(), status: self.status, body: self.body }
    }
}

/// Why a consumer got no value.
#[derive(Clone, Copy, Debug, PartialEq, Eq, Structural)]
pub enum ExtractError {
    /// Nothing is cached for the resource: it may still be loading.
    NoMatch,
    /// The entry was older than the consumer allows; it has been evicted
    /// and its request queued to be sent again.
    Stale,
    /// The server answered with this status, which is not 200.
    ApiError(u16),
    /// The answer has status 200 and no body.
    MalformedBody,
    /// The body is not of the shape that the consumer asked for.
    DeserializeFailure,
}

/// The decimal digit `d` as text.
pub open spec fn digit(d: nat) -> Seq<char> {
    if d == 0 {
        "0"@
    } else if d == 1 {
        "1"@
    } else if d == 2 {
        "2"@
    } else if d == 3 {
        "3"@
    } else if d == 4 {
        "4"@
    } else if d == 5 {
        "5"@
    } else if d == 6 {
        "6"@
    } else if d == 7 {
        "7"@
    } else if d == 8 {
        "8"@
    } else {
        "9"@
    }
}

/// The number `n` in decimal digits, without leading zeros.
pub open spec fn decimal(n: nat) -> Seq<char>
    decreases n,
{
    if n < 10 {
        digit(n)
    } else {
        decimal(n / 10) + digit(n % 10)
    }
}

/// The decimal digit `d` as text.
fn digit_text(d: u16) -> (r: &'static str)
    requires
        d < 10,
    ensures
        r@ == digit(d as nat),
{
    if d == 0 {
        "0"
    } else if d == 1 {
        "1"
    } else if d == 2 {
        "2"
    } else if d == 3 {
        "3"
    } else if d == 4 {
        "4"
    } else if d == 5 {
        "5"
    } else if d == 6 {
        "6"
    } else if d == 7 {
        "7"
    } else if d == 8 {
        "8"
    } else {
        "9"
    }
}

/// The status `n` in decimal digits.
fn status_text(n: u16) -> (r: String)
    ensures
        r@ == decimal(n as nat),
    decreases n,
{
    if n < 10 {
        digit_text(n).to_owned()
    } else {
        let mut text = status_text(n / 10);
        text.append(digit_text(n % 10));
        text
    }
}

impl ExtractError {
    /// What [`ExtractError::message`] says of each error: for a status the
    /// server answered with, the status in decimal digits.
    pub open spec fn text(self) -> Seq<char> {
        match self {
            ExtractError::NoMatch => "No tasks matched"@,
            ExtractError::Stale => "Task is stale"@,
            ExtractError::ApiError(status) => decimal(status as nat),
            ExtractError::MalformedBody => "Failed to extract body"@,
            ExtractError::DeserializeFailure => "Failed to deserialize body"@,
        }
    }

    /// The error in words.
    pub fn message(&self) -> (r: String)
        ensures
            r@ == self.text(),
    {
        match self {
            ExtractError::NoMatch => "No tasks matched".to_owned(),
            ExtractError::Stale => "Task is stale".to_owned(),
            ExtractError::ApiError(status) => status_text(*status),
            ExtractError::MalformedBody => "Failed to extract body".to_owned(),
            ExtractError::DeserializeFailure => "Failed to deserialize body".to_owned(),
        }
    }
}

/// The values of a list of requests of consumers, in order.
pub open spec fn consumable_views(requests: Seq<QueryConsumable>) -> Seq<QueryConsumableView> {
    requests.map_values(|c: QueryConsumable| c@)
}

/// Whether every one of the requests has a cache entry, whatever its age
/// and whatever it holds. Nothing is taken out of the cache.
pub fn check_completed_queries(consumables: Vec<QueryConsumable>, cache: &Cache) -> (r: bool)
    ensures
        r == completed(cache@, consumable_views(consumables@)),
{
    let ghost requests = consumable_views(consumables@);
    let mut i: usize = 0;
    while i < consumables.len()
        invariant
            i <= consumables.len(),
            requests == consumable_views(consumables@),
            forall|j: int|
                0 <= j < i ==> cache@.contains_key((#[trigger] requests[j]).resource_key()),
        decreases consumables.len() - i,
    {
        let key = consumables[i].resource_key();
        assert(key.deep_view() == requests[i as int].resource_key());
        if !cache.contains_key(&key) {
            return false;
        }
        i += 1;
    }
    true
}

/// Whether an entry that arrived at `timestamp` is stale at `now`.
fn stale_at(timestamp: u128, stale_time: Option<u128>, now: u128) -> (r: bool)
    ensures
        r == is_stale(timestamp, stale_time, now),
{
    match stale_time {
        Some(budget) => now > timestamp && now - timestamp > budget,
        None => false,
    }
}

/// What a consumer gets from a cached answer: the body of an answer with
/// status 200, if it has one.
pub fn read_response(response: &Response) -> (r: Result<serde_json::Value, ExtractError>)
    ensures
        r == reading(response@),
{
    if response.status != 200 {
        Err(ExtractError::ApiError(response.status))
    } else {
        match &response.body {
            Some(body) => Ok(clone_json(body)),
            None => Err(ExtractError::MalformedBody),
        }
    }
}

/// The extractor. Looks up the cache entry of the resource that the
/// consumer asks for, at the time `now` in milliseconds since the epoch.
///
/// Without an entry the answer is `NoMatch`. An entry older than the
/// consumer's budget is evicted, its request is appended to the stale
/// queue, and the answer is `Stale`. Otherwise the entry is read: an
/// answer whose status is not 200 gives `ApiError`, one of status 200
/// without a body gives `MalformedBody`, and one with a body gives the
/// body. With `force_next_refetch` the entry leaves the cache whatever it
/// held; without, an entry that is not stale stays.
pub fn query_extractor(
    consumable: QueryConsumable,
    store: &mut QueryStore,
    now: u128,
) -> (r: Result<serde_json::Value, ExtractError>)
    ensures
        final(store)@ == old(store)@.extract(consumable@, now),
        r == old(store)@.extract_result(consumable@, now),
{
    let key = consumable.resource_key();
    if consumable.force_next_refetch {
        match store.cache.map_remove(&key) {
            None => {
                assert(store@.cache =~= old(store)@.cache);
                Err(ExtractError::NoMatch)
            },
            Some(entry) => {
                if stale_at(entry.timestamp, consumable.stale_time, now) {
                    let ghost listed = store.stale_queries@;
                    store.stale_queries.push(entry.query);
                    assert(query_views(store.stale_queries@) =~= query_views(listed).push(
                        entry.query@,
                    ));
                    Err(ExtractError::Stale)
                } else {
                    read_response(&entry.response)
                }
            },
        }
    } else {
        let found = match store.cache.map_get(&key) {
            None => Err(ExtractError::NoMatch),
            Some(entry) => {
                if stale_at(entry.timestamp, consumable.stale_time, now) {
                    Err(ExtractError::Stale)
                } else {
                    read_response(&entry.response)
                }
            },
        };
        match found {
            Err(ExtractError::Stale) => {
                match store.cache.map_remove(&key) {
                    Some(entry) => {
                        let ghost listed = store.stale_queries@;
                        store.stale_queries.push(entry.query);
                        assert(query_views(store.stale_queries@) =~= query_views(listed).push(
                            entry.query@,
                        ));
                    },
                    None => {},
                }
            },
            _ => {},
        }
        found
    }
}

/// The last step of an extraction: turns what decoding the body into the
/// consumer's type gave into the consumer's result.
pub fn decoded<T>(value: Option<T>) -> (r: Result<T, ExtractError>)
    ensures
        r == match value {
            Some(v) => Ok::<T, ExtractError>(v),
            None => Err(ExtractError::DeserializeFailure),
        },
{
    match value {
        Some(v) => Ok(v),
        None => Err(ExtractError::DeserializeFailure),
    }
}

} // verus!
