//! Requests and the keys under which the store files them.

use crate::json::{clone_json, null_json};
use std::time::Duration;
use vstd::prelude::*;

verus! {

/// The HTTP method of a request.
#[derive(Clone, Copy, Debug, PartialEq, Eq, Hash, Structural)]
pub enum Method {
    Get,
    Post,
    Delete,
}

impl Default for Method {
    fn default() -> (r: Self)
        ensures
            r == Method::Get,
    {
        Method::Get
    }
}

/// The identity of a cached resource: the url and the query key, where an
/// absent query key counts as the empty string.
pub type ResourceKey = (Seq<char>, Seq<char>);

/// The identity of a running request: the resource and the sequence that
/// owns the request, if any.
pub type InFlightKey = (Seq<char>, Seq<char>, Option<Seq<char>>);

/// The mathematical value of a [`Query`].
pub struct QueryView {
    pub method: Method,
    pub url: Seq<char>,
    pub params: Option<Seq<(Seq<char>, Seq<char>)>>,
    pub body: serde_json::Value,
    pub headers: Option<Seq<(Seq<char>, Seq<char>)>>,
    pub timeout: Option<Duration>,
    pub query_key: Option<Seq<char>>,
    pub skip_cache_check: Option<bool>,
    pub sequence_key: Option<Seq<char>>,
}

/// The query key that a request is filed under.
pub open spec fn key_or_empty(query_key: Option<Seq<char>>) -> Seq<char> {
    match query_key {
        Some(key) => key,
        None => Seq::empty(),
    }
}

impl QueryView {
    /// The key of the cache entry that answers this request.
    pub open spec fn resource_key(self) -> ResourceKey {
        (self.url, key_or_empty(self.query_key))
    }

    /// The key under which this request runs.
    pub open spec fn in_flight_key(self) -> InFlightKey {
        (self.url, key_or_empty(self.query_key), self.sequence_key)
    }

    /// Whether a cache entry for the resource makes this request needless.
    pub open spec fn cache_gated(self) -> bool {
        self.method == Method::Get && self.skip_cache_check != Some(true)
    }

    /// This request as a step of the sequence `key`.
    pub open spec fn tagged(self, key: Seq<char>) -> QueryView {
        QueryView { sequence_key: Some(key), ..self }
    }
}

/// One request: what to call and how to file the answer.
#[derive(Debug, PartialEq, Eq, Hash)]
pub struct Query {
    pub method: Method,
    pub url: String,
    pub params: Option<Vec<(String, String)>>,
    pub body: serde_json::Value,
    pub headers: Option<Vec<(String, String)>>,
    pub timeout: Option<Duration>,
    /// Requests with the same url and query key are one resource.
    pub query_key: Option<String>,
    pub skip_cache_check: Option<bool>,
    /// The sequence that owns this request. The sequencer sets it when it
    /// sends a step off; a caller leaves it empty.
    pub sequence_key: Option<String>,
}

impl View for Query {
    type V = QueryView;

    open spec fn view(&self) -> QueryView {
        QueryView {
            method: self.method,
            url: self.url@,
            params: self.params.deep_view(),
            body: self.body,
            headers: self.headers.deep_view(),
            timeout: self.timeout,
            query_key: self.query_key.deep_view(),
            skip_cache_check: self.skip_cache_check,
            sequence_key: self.sequence_key.deep_view(),
        }
    }
}

/// The values of a list of requests, in order.
pub open spec fn query_views(queries: Seq<Query>) -> Seq<QueryView> {
    queries.map_values(|q: Query| q@)
}

/// The value of a request that may be absent.
pub open spec fn optional_view(query: Option<Query>) -> Option<QueryView> {
    match query {
        Some(q) => Some(q@),
        None => None,
    }
}

/// A copy of a list of pairs.
fn clone_pairs(pairs: &Option<Vec<(String, String)>>) -> (r: Option<Vec<(String, String)>>)
    ensures
        r.deep_view() == pairs.deep_view(),
{
    match pairs {
        None => None,
        Some(list) => {
            let mut out: Vec<(String, String)> = Vec::new();
            let mut i: usize = 0;
            while i < list.len()
                invariant
                    i <= list.len(),
                    out.len() == i,
                    forall|j: int| 0 <= j < i ==> out[j] == list[j],
                decreases list.len() - i,
            {
                out.push((list[i].0.clone(), list[i].1.clone()));
                i += 1;
            }
            assert(out.deep_view() =~= list.deep_view());
            Some(out)
        },
    }
}

/// A copy of an optional string.
fn clone_text(text: &Option<String>) -> (r: Option<String>)
    ensures
        r == *text,
{
    match text {
        None => None,
        Some(s) => Some(s.clone()),
    }
}

impl Query {
    /// The key of the cache entry that answers this request.
    pub fn resource_key(&self) -> (r: (String, String))
        ensures
            r.deep_view() == self@.resource_key(),
    {
        let filed = match &self.query_key {
            Some(key) => key.clone(),
            None => String::new(),
        };
        (self.url.clone(), filed)
    }

    /// The key under which this request runs.
    pub fn in_flight_key(&self) -> (r: (String, String, Option<String>))
        ensures
            r.deep_view() == self@.in_flight_key(),
    {
        let resource = self.resource_key();
        (resource.0, resource.1, clone_text(&self.sequence_key))
    }

    /// A copy of this request as a step of the sequence `key`.
    pub fn tagged(&self, key: &String) -> (r: Query)
        ensures
            r@ == self@.tagged(key@),
    {
        Query {
            method: self.method,
            url: self.url.clone(),
            params: clone_pairs(&self.params),
            body: clone_json(&self.body),
            headers: clone_pairs(&self.headers),
            timeout: self.timeout,
            query_key: clone_text(&self.query_key),
            skip_cache_check: self.skip_cache_check,
            sequence_key: Some(key.clone()),
        }
    }
}

impl Clone for Query {
    fn clone(&self) -> (r: Self)
        ensures
            r@ == self@,
    {
        Query {
            method: self.method,
            url: self.url.clone(),
            params: clone_pairs(&self.params),
            body: clone_json(&self.body),
            headers: clone_pairs(&self.headers),
            timeout: self.timeout,
            query_key: clone_text(&self.query_key),
            skip_cache_check: self.skip_cache_check,
            sequence_key: clone_text(&self.sequence_key),
        }
    }
}

/// Puts a request together field by field, starting from the default
/// request.
#[derive(Debug)]
pub struct QueryBuilder {
    query: Query,
}

impl View for QueryBuilder {
    type V = QueryView;

    closed spec fn view(&self) -> QueryView {
        self.query@
    }
}

impl Default for QueryBuilder {
    fn default() -> (r: Self)
        ensures
            r@.method == Method::Get,
            r@.url == Seq::<char>::empty(),
            r@.params.is_none(),
            r@.headers.is_none(),
            r@.timeout.is_none(),
            r@.query_key.is_none(),
            r@.skip_cache_check.is_none(),
            r@.sequence_key.is_none(),
    {
        QueryBuilder { query: Query::default() }
    }
}

impl QueryBuilder {
    /// Sets the method.
    pub fn method(self, method: Method) -> (r: Self)
        ensures
            r@ == (QueryView { method, ..self@ }),
    {
        let mut query = self.query;
        query.method = method;
        QueryBuilder { query }
    }

    /// Sets the url.
    pub fn url(self, url: &str) -> (r: Self)
        ensures
            r@ == (QueryView { url: url@, ..self@ }),
    {
        let mut query = self.query;
        query.url = url.to_owned();
        QueryBuilder { query }
    }

    /// Sets the parameters of the query string.
    pub fn params(self, params: Vec<(String, String)>) -> (r: Self)
        ensures
            r@ == (QueryView { params: Some(params.deep_view()), ..self@ }),
    {
        let mut query = self.query;
        query.params = Some(params);
        QueryBuilder { query }
    }

    /// Sets the body, which a request other than `Get` sends.
    pub fn body(self, body: serde_json::Value) -> (r: Self)
        ensures
            r@ == (QueryView { body, ..self@ }),
    {
        let mut query = self.query;
        query.body = body;
        QueryBuilder { query }
    }

    /// Sets the headers.
    pub fn headers(self, headers: Vec<(String, String)>) -> (r: Self)
        ensures
            r@ == (QueryView { headers: Some(headers.deep_view()), ..self@ }),
    {
        let mut query = self.query;
        query.headers = Some(headers);
        QueryBuilder { query }
    }

    /// Sets the time that the transport may take.
    pub fn timeout(self, timeout: Duration) -> (r: Self)
        ensures
            r@ == (QueryView { timeout: Some(timeout), ..self@ }),
    {
        let mut query = self.query;
        query.timeout = Some(timeout);
        QueryBuilder { query }
    }

    /// Sets the query key.
    pub fn query_key(self, query_key: &str) -> (r: Self)
        ensures
            r@ == (QueryView { query_key: Some(query_key@), ..self@ }),
    {
        let mut query = self.query;
        query.query_key = Some(query_key.to_owned());
        QueryBuilder { query }
    }

    /// Sets whether the request runs even where its resource is cached.
    pub fn skip_cache_check(self, skip: bool) -> (r: Self)
        ensures
            r@ == (QueryView { skip_cache_check: Some(skip), ..self@ }),
    {
        let mut query = self.query;
        query.skip_cache_check = Some(skip);
        QueryBuilder { query }
    }

    /// The request as it was put together.
    pub fn build(self) -> (r: Query)
        ensures
            r@ == self@,
    {
        self.query
    }
}

impl Default for Query {
    fn default() -> (r: Self)
        ensures
            r@.method == Method::Get,
            r@.url == Seq::<char>::empty(),
            r@.params.is_none(),
            r@.headers.is_none(),
            r@.timeout.is_none(),
            r@.query_key.is_none(),
            r@.skip_cache_check.is_none(),
            r@.sequence_key.is_none(),
    {
        Query {
            method: Method::Get,
            url: String::new(),
            params: None,
            body: null_json(),
            headers: None,
            timeout: None,
            query_key: None,
            skip_cache_check: None,
            sequence_key: None,
        }
    }
}

} // verus!
