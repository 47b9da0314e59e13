//! The store as a mathematical value, and each operation on it as a function
//! from the store before to the store after and to what the operation hands
//! back. The contracts of the executable functions are stated over these.

use crate::extractor::{ExtractError, QueryConsumableView, ResponseView};
use crate::json::{parsed_json, Parsed};
use crate::query::{InFlightKey, QueryView, ResourceKey};
use crate::tables::CacheEntryView;
use crate::tasks::{
    CompletionView, ErrorTriggerEventView, QuerySequenceView, TransportOutcome,
};
use vstd::prelude::*;

verus! {

/// The mathematical value of a query store.
pub struct StoreState {
    /// The requests that are running, by in-flight key.
    pub loading_requests: Map<InFlightKey, QueryView>,
    /// The finished requests, by resource key.
    pub cache: Map<ResourceKey, CacheEntryView>,
    /// For each sequence under way, the steps that are left; the first of
    /// them is the one that runs.
    pub sequences: Map<Seq<char>, Seq<QueryView>>,
    /// The requests whose entries were evicted for staleness, oldest first.
    pub stale_queries: Seq<QueryView>,
}

/// The answer that says no more than its status.
pub open spec fn bare_response(status: u16) -> ResponseView {
    ResponseView { msg: None, status, body: None }
}

/// The normalized answer for a payload that arrived with a success status.
pub open spec fn parsed_response(parsed: Parsed) -> ResponseView {
    match parsed {
        Parsed::Invalid => bare_response(500),
        Parsed::Null => bare_response(200),
        Parsed::Document(body) => ResponseView { msg: None, status: 200, body: Some(body) },
    }
}

/// The normalized answer for what the transport delivered.
pub open spec fn normalized(outcome: TransportOutcome) -> ResponseView {
    match outcome {
        TransportOutcome::Body(bytes) => parsed_response(parsed_json(bytes@)),
        TransportOutcome::Unreadable => bare_response(500),
        TransportOutcome::Status { code, text } => ResponseView {
            msg: Some(text@),
            status: code,
            body: None,
        },
        TransportOutcome::Transport => bare_response(500),
    }
}

/// The error notification that a finished request raises, if any: one for
/// each failure that carries an answer of the server.
pub open spec fn reported(key: InFlightKey, outcome: TransportOutcome) -> Option<
    ErrorTriggerEventView,
> {
    match outcome {
        TransportOutcome::Status { code, .. } => Some(
            ErrorTriggerEventView { url: key.0, error: code },
        ),
        _ => None,
    }
}

/// The step that a sequence sends off: its first, marked with the key of the
/// sequence.
pub open spec fn next_step(key: Seq<char>, tasks: Seq<QueryView>) -> Option<QueryView> {
    if tasks.len() == 0 {
        None
    } else {
        Some(tasks[0].tagged(key))
    }
}

/// Whether an entry that arrived at `timestamp` is older at `now` than the
/// budget allows. Without a budget nothing is stale.
pub open spec fn is_stale(timestamp: u128, stale_time: Option<u128>, now: u128) -> bool {
    match stale_time {
        Some(budget) => now - timestamp > budget,
        None => false,
    }
}

/// What a consumer gets from a cached answer.
pub open spec fn reading(response: ResponseView) -> Result<serde_json::Value, ExtractError> {
    if response.status != 200 {
        Err(ExtractError::ApiError(response.status))
    } else {
        match response.body {
            Some(body) => Ok(body),
            None => Err(ExtractError::MalformedBody),
        }
    }
}

/// Whether every one of `requests` has an entry in `cache`.
pub open spec fn completed(
    cache: Map<ResourceKey, CacheEntryView>,
    requests: Seq<QueryConsumableView>,
) -> bool {
    forall|i: int|
        0 <= i < requests.len() ==> cache.contains_key((#[trigger] requests[i]).resource_key())
}

/// The state of a tick while it takes in finished requests.
pub struct TickState {
    pub store: StoreState,
    /// The sequences to move on, in the order their steps were taken in.
    pub advances: Seq<QuerySequenceView>,
    /// The error notifications raised so far.
    pub errors: Seq<ErrorTriggerEventView>,
}

/// The state of a tick while it moves sequences on.
pub struct AdvanceState {
    pub store: StoreState,
    /// The requests to send off, in order.
    pub spawned: Seq<QueryView>,
}

/// What a tick comes to.
pub struct PollState {
    pub store: StoreState,
    pub spawned: Seq<QueryView>,
    pub errors: Seq<ErrorTriggerEventView>,
}

impl StoreState {
    /// The store that holds nothing.
    pub open spec fn empty() -> StoreState {
        StoreState {
            loading_requests: Map::empty(),
            cache: Map::empty(),
            sequences: Map::empty(),
            stale_queries: Seq::empty(),
        }
    }

    /// Whether everything is filed where it belongs: each running request
    /// under its own in-flight key, each cache entry under the resource key
    /// of the request that asked for it, and no sequence without steps.
    pub open spec fn well_formed(self) -> bool {
        &&& forall|key: InFlightKey|
            self.loading_requests.contains_key(key) ==> (
            #[trigger] self.loading_requests[key]).in_flight_key() == key
        &&& forall|key: ResourceKey|
            self.cache.contains_key(key) ==> (#[trigger] self.cache[key]).query.resource_key()
                == key
        &&& forall|key: Seq<char>|
            self.sequences.contains_key(key) ==> (#[trigger] self.sequences[key]).len() > 0
    }

    /// Whether the dispatcher sends `query` off: not if it is cache-gated
    /// and its resource is cached, and not if a request already runs under
    /// its in-flight key.
    pub open spec fn accepts(self, query: QueryView) -> bool {
        &&& !(query.cache_gated() && self.cache.contains_key(query.resource_key()))
        &&& !self.loading_requests.contains_key(query.in_flight_key())
    }

    /// The store after `query` was submitted.
    pub open spec fn submit(self, query: QueryView) -> StoreState {
        if self.accepts(query) {
            StoreState {
                loading_requests: self.loading_requests.insert(query.in_flight_key(), query),
                ..self
            }
        } else {
            self
        }
    }

    /// The request to run in the background after `query` was submitted.
    pub open spec fn submit_spawns(self, query: QueryView) -> Option<QueryView> {
        if self.accepts(query) {
            Some(query)
        } else {
            None
        }
    }

    /// The store with the queue of the sequence `key` set to `tasks`. A
    /// sequence without steps is not kept.
    pub open spec fn enqueue(self, key: Seq<char>, tasks: Seq<QueryView>) -> StoreState {
        StoreState {
            sequences: if tasks.len() == 0 {
                self.sequences.remove(key)
            } else {
                self.sequences.insert(key, tasks)
            },
            ..self
        }
    }

    /// The store after the sequence `key` was set to `tasks` and its first
    /// step submitted.
    pub open spec fn start(self, key: Seq<char>, tasks: Seq<QueryView>) -> StoreState {
        match next_step(key, tasks) {
            Some(step) => self.enqueue(key, tasks).submit(step),
            None => self.enqueue(key, tasks),
        }
    }

    /// The request to run in the background after the sequence `key` was
    /// set to `tasks`.
    pub open spec fn start_spawns(self, key: Seq<char>, tasks: Seq<QueryView>) -> Option<
        QueryView,
    > {
        match next_step(key, tasks) {
            Some(step) => self.submit_spawns(step),
            None => None,
        }
    }

    /// The store after the request under `done.key` was taken in: it runs no
    /// longer, and its normalized answer is the cache entry of its resource.
    pub open spec fn settle(self, done: CompletionView) -> StoreState {
        StoreState {
            loading_requests: self.loading_requests.remove(done.key),
            cache: self.cache.insert(
                (done.key.0, done.key.1),
                CacheEntryView {
                    response: normalized(done.outcome),
                    query: self.loading_requests[done.key],
                    timestamp: done.timestamp,
                },
            ),
            ..self
        }
    }

    /// The sequence that moves on when the request under `key` is taken in:
    /// the one that owns the request, if it has steps left, without its
    /// first step.
    pub open spec fn advance_of(self, key: InFlightKey) -> Option<QuerySequenceView> {
        match key.2 {
            Some(id) => if self.sequences.contains_key(id) && self.sequences[id].len() > 0 {
                Some(QuerySequenceView { key: id, tasks: self.sequences[id].drop_first() })
            } else {
                None
            },
            None => None,
        }
    }

    /// The store after a consumer asked for `request` at the time `now`.
    pub open spec fn extract(self, request: QueryConsumableView, now: u128) -> StoreState {
        let key = request.resource_key();
        if !self.cache.contains_key(key) {
            self
        } else if is_stale(self.cache[key].timestamp, request.stale_time, now) {
            StoreState {
                cache: self.cache.remove(key),
                stale_queries: self.stale_queries.push(self.cache[key].query),
                ..self
            }
        } else if request.force_next_refetch {
            StoreState { cache: self.cache.remove(key), ..self }
        } else {
            self
        }
    }

    /// What a consumer gets who asks for `request` at the time `now`.
    pub open spec fn extract_result(self, request: QueryConsumableView, now: u128) -> Result<
        serde_json::Value,
        ExtractError,
    > {
        let key = request.resource_key();
        if !self.cache.contains_key(key) {
            Err(ExtractError::NoMatch)
        } else if is_stale(self.cache[key].timestamp, request.stale_time, now) {
            Err(ExtractError::Stale)
        } else {
            reading(self.cache[key].response)
        }
    }

    /// The store after the watcher took the oldest stale request and
    /// submitted it again.
    pub open spec fn drain(self) -> StoreState {
        if self.stale_queries.len() == 0 {
            self
        } else {
            StoreState { stale_queries: self.stale_queries.drop_first(), ..self }.submit(
                self.stale_queries[0],
            )
        }
    }

    /// The request to run in the background after the watcher's turn.
    pub open spec fn drain_spawns(self) -> Option<QueryView> {
        if self.stale_queries.len() == 0 {
            None
        } else {
            self.submit_spawns(self.stale_queries[0])
        }
    }

    /// What a tick comes to that is handed the finished requests `done`:
    /// first each is taken in, in order; then each sequence whose step was
    /// taken in moves on.
    pub open spec fn poll(self, done: Seq<CompletionView>) -> PollState {
        let taken = TickState::begin(self).take_all(done);
        let moved = AdvanceState::begin(taken.store).move_all(taken.advances);
        PollState { store: moved.store, spawned: moved.spawned, errors: taken.errors }
    }
}

impl TickState {
    /// The tick that begins on `store`.
    pub open spec fn begin(store: StoreState) -> TickState {
        TickState { store, advances: Seq::empty(), errors: Seq::empty() }
    }

    /// The tick after one finished request was taken in. One that is not
    /// running is passed over.
    pub open spec fn take(self, done: CompletionView) -> TickState {
        if self.store.loading_requests.contains_key(done.key) {
            TickState {
                store: self.store.settle(done),
                advances: match self.store.advance_of(done.key) {
                    Some(sequence) => self.advances.push(sequence),
                    None => self.advances,
                },
                errors: match reported(done.key, done.outcome) {
                    Some(event) => self.errors.push(event),
                    None => self.errors,
                },
            }
        } else {
            self
        }
    }

    /// The tick after the finished requests `done` were taken in, in order.
    pub open spec fn take_all(self, done: Seq<CompletionView>) -> TickState
        decreases done.len(),
    {
        if done.len() == 0 {
            self
        } else {
            self.take_all(done.drop_last()).take(done.last())
        }
    }
}

impl AdvanceState {
    /// The moving on of sequences that begins on `store`.
    pub open spec fn begin(store: StoreState) -> AdvanceState {
        AdvanceState { store, spawned: Seq::empty() }
    }

    /// The tick after one sequence moved on.
    pub open spec fn move_on(self, sequence: QuerySequenceView) -> AdvanceState {
        AdvanceState {
            store: self.store.start(sequence.key, sequence.tasks),
            spawned: match self.store.start_spawns(sequence.key, sequence.tasks) {
                Some(step) => self.spawned.push(step),
                None => self.spawned,
            },
        }
    }

    /// The tick after the sequences `sequences` moved on, in order.
    pub open spec fn move_all(self, sequences: Seq<QuerySequenceView>) -> AdvanceState
        decreases sequences.len(),
    {
        if sequences.len() == 0 {
            self
        } else {
            self.move_all(sequences.drop_last()).move_on(sequences.last())
        }
    }
}

} // verus!
