//! The write side of the store: the dispatcher, the poller, the sequencer
//! and the watcher of stale requests.

use crate::extractor::Response;
use crate::json::{parse_json, Parsed};
use crate::model::{
    bare_response, normalized, parsed_response, AdvanceState, StoreState, TickState,
};
use crate::query::{optional_view, query_views, InFlightKey, QueryView};
use crate::tables::{Cache, CacheEntry, LoadingRequests, Sequences};
pub use crate::query::{Method, Query, QueryBuilder};
use std::collections::VecDeque;
use vstd::prelude::*;

verus! {

/// What the transport delivered for one request.
#[derive(Debug)]
pub enum TransportOutcome {
    /// The server answered with a success status; the payload as it came.
    Body(Vec<u8>),
    /// The server answered with a success status, but the payload could
    /// not be read to its end.
    Unreadable,
    /// The server answered with an error status and this text.
    Status { code: u16, text: String },
    /// No answer came at all.
    Transport,
}

/// The mathematical value of a [`Completion`].
pub struct CompletionView {
    pub key: InFlightKey,
    pub outcome: TransportOutcome,
    pub timestamp: u128,
}

/// A request that was found finished: the key it ran under, what the
/// transport delivered, and its time of arrival in milliseconds since the
/// epoch.
#[derive(Debug)]
pub struct Completion {
    pub key: (String, String, Option<String>),
    pub outcome: TransportOutcome,
    pub timestamp: u128,
}

impl View for Completion {
    type V = CompletionView;

    open spec fn view(&self) -> CompletionView {
        CompletionView {
            key: self.key.deep_view(),
            outcome: self.outcome,
            timestamp: self.timestamp,
        }
    }
}

/// The mathematical value of an [`ErrorTriggerEvent`].
pub struct ErrorTriggerEventView {
    pub url: Seq<char>,
    pub error: u16,
}

/// The notification that the server answered a request with an error
/// status.
#[derive(Debug)]
pub struct ErrorTriggerEvent {
    pub url: String,
    pub error: u16,
}

impl View for ErrorTriggerEvent {
    type V = ErrorTriggerEventView;

    open spec fn view(&self) -> ErrorTriggerEventView {
        ErrorTriggerEventView { url: self.url@, error: self.error }
    }
}

impl ErrorTriggerEvent {
    /// Whether the server asks the caller to authenticate again: the
    /// status is 401. What to do then is left to whoever listens.
    pub fn needs_reauthentication(&self) -> (r: bool)
        ensures
            r == (self@.error == 401),
    {
        self.error == 401
    }
}

/// The mathematical value of a [`QuerySequence`].
pub struct QuerySequenceView {
    pub key: Seq<char>,
    pub tasks: Seq<QueryView>,
}

/// Requests to run one after the other, each only when the one before it
/// has finished.
#[derive(Debug)]
pub struct QuerySequence {
    pub key: String,
    pub tasks: VecDeque<Query>,
}

impl View for QuerySequence {
    type V = QuerySequenceView;

    open spec fn view(&self) -> QuerySequenceView {
        QuerySequenceView { key: self.key@, tasks: query_views(self.tasks@) }
    }
}

/// The values of a list of finished requests, in order.
pub open spec fn completion_views(finished: Seq<Completion>) -> Seq<CompletionView> {
    finished.map_values(|c: Completion| c@)
}

/// The values of a list of error notifications, in order.
pub open spec fn error_views(errors: Seq<ErrorTriggerEvent>) -> Seq<ErrorTriggerEventView> {
    errors.map_values(|e: ErrorTriggerEvent| e@)
}

/// The values of a list of sequences, in order.
pub open spec fn sequence_views(sequences: Seq<QuerySequence>) -> Seq<QuerySequenceView> {
    sequences.map_values(|s: QuerySequence| s@)
}

/// What a tick asks of its caller.
#[derive(Debug)]
pub struct PollOutcome {
    /// The requests to run in the background, in order.
    pub spawn: Vec<Query>,
    /// The error notifications to hand to whoever listens.
    pub errors: Vec<ErrorTriggerEvent>,
}

/// The state of the request cache.
#[derive(Debug)]
pub struct QueryStore {
    /// The requests that are running.
    pub loading_requests: LoadingRequests,
    /// The finished requests.
    pub cache: Cache,
    /// The sequences under way.
    pub sequences: Sequences,
    /// The requests whose entries were evicted for staleness, oldest first.
    pub stale_queries: Vec<Query>,
}

impl View for QueryStore {
    type V = StoreState;

    open spec fn view(&self) -> StoreState {
        StoreState {
            loading_requests: self.loading_requests@,
            cache: self.cache@,
            sequences: self.sequences@,
            stale_queries: query_views(self.stale_queries@),
        }
    }
}

impl Default for QueryStore {
    fn default() -> (r: Self)
        ensures
            r@ == StoreState::empty(),
    {
        let store = QueryStore {
            loading_requests: LoadingRequests::new(),
            cache: Cache::new(),
            sequences: Sequences::new(),
            stale_queries: Vec::new(),
        };
        assert(query_views(store.stale_queries@) =~= Seq::<QueryView>::empty());
        store
    }
}

/// The dispatcher. Decides whether `query` must run: not if it is a `Get`
/// that does not skip the cache check and its resource is cached, and not
/// if a request already runs under its in-flight key. A request that must
/// run is registered as running and handed back, to be run in the
/// background.
pub fn spawn_api_task(store: &mut QueryStore, query: Query) -> (r: Option<Query>)
    ensures
        final(store)@ == old(store)@.submit(query@),
        optional_view(r) == old(store)@.submit_spawns(query@),
{
    let resource = query.resource_key();
    let skips = match query.skip_cache_check {
        Some(skip) => skip,
        None => false,
    };
    if query.method == Method::Get && !skips && store.cache.contains_key(&resource) {
        return None;
    }
    let key = query.in_flight_key();
    if store.loading_requests.contains_key(&key) {
        return None;
    }
    let running = query.clone();
    store.loading_requests.map_insert(key, running);
    Some(query)
}

/// The sequencer. Sets the queue of the sequence to the given steps and
/// submits the first of them, marked with the key of the sequence. A
/// sequence without steps is over and is not kept. Hands back the request
/// to run in the background, if the dispatcher accepted the step.
pub fn api_task_sequence(store: &mut QueryStore, sequence: QuerySequence) -> (r: Option<Query>)
    ensures
        final(store)@ == old(store)@.start(sequence@.key, sequence@.tasks),
        optional_view(r) == old(store)@.start_spawns(sequence@.key, sequence@.tasks),
{
    let QuerySequence { key, tasks } = sequence;
    if tasks.len() == 0 {
        store.sequences.map_remove(&key);
        None
    } else {
        let step = tasks[0].tagged(&key);
        store.sequences.map_insert(key, tasks);
        spawn_api_task(store, step)
    }
}

/// The watcher of stale requests. Takes the oldest request whose entry was
/// evicted for staleness, if there is one, and submits it again: at most
/// one per call. Hands back the request to run in the background, if the
/// dispatcher accepted it.
pub fn watch_cache(store: &mut QueryStore) -> (r: Option<Query>)
    ensures
        final(store)@ == old(store)@.drain(),
        optional_view(r) == old(store)@.drain_spawns(),
{
    if store.stale_queries.len() == 0 {
        None
    } else {
        let removed = store.stale_queries.remove(0);
        assert(query_views(store.stale_queries@) =~= query_views(
            old(store).stale_queries@,
        ).drop_first());
        spawn_api_task(store, removed)
    }
}

impl Response {
    /// The answer that says no more than its status.
    pub fn bare(status: u16) -> (r: Response)
        ensures
            r@ == bare_response(status),
    {
        Response { msg: None, status, body: None }
    }

    /// The normalized answer for a payload that arrived with a success
    /// status: status 200 with the document as body if the payload is a
    /// JSON document other than `null`, status 200 without a body if it is
    /// `null`, status 500 if it is no JSON document.
    pub fn of_parsed(parsed: Parsed) -> (r: Response)
        ensures
            r@ == parsed_response(parsed),
    {
        match parsed {
            Parsed::Invalid => Response::bare(500),
            Parsed::Null => Response::bare(200),
            Parsed::Document(body) => Response { msg: None, status: 200, body: Some(body) },
        }
    }

    /// The normalized answer for what the transport delivered: a payload
    /// is parsed; an error status is kept with its text; a payload that
    /// could not be read and a failure without an answer give status 500.
    pub fn of_outcome(outcome: &TransportOutcome) -> (r: Response)
        ensures
            r@ == normalized(*outcome),
    {
        match outcome {
            TransportOutcome::Body(bytes) => Response::of_parsed(parse_json(bytes.as_slice())),
            TransportOutcome::Unreadable => Response::bare(500),
            TransportOutcome::Status { code, text } => Response {
                msg: Some(text.clone()),
                status: *code,
                body: None,
            },
            TransportOutcome::Transport => Response::bare(500),
        }
    }
}

/// The tick that has come this far in taking in finished requests.
spec fn taking(
    store: StoreState,
    advances: Seq<QuerySequence>,
    errors: Seq<ErrorTriggerEvent>,
) -> TickState {
    TickState { store, advances: sequence_views(advances), errors: error_views(errors) }
}

/// The tick that has come this far in moving sequences on.
spec fn moving(store: StoreState, spawn: Seq<Query>) -> AdvanceState {
    AdvanceState { store, spawned: query_views(spawn) }
}

/// A copy of the steps of a queue from the step at `from` on.
fn steps_from(queue: &VecDeque<Query>, from: usize) -> (r: VecDeque<Query>)
    requires
        from <= queue@.len(),
    ensures
        query_views(r@) == query_views(queue@).skip(from as int),
{
    let mut rest: VecDeque<Query> = VecDeque::new();
    let mut i: usize = from;
    while i < queue.len()
        invariant
            from <= i <= queue@.len(),
            rest@.len() == i - from,
            forall|j: int| 0 <= j < rest@.len() ==> rest@[j]@ == queue@[j + from]@,
        decreases queue@.len() - i,
    {
        rest.push_back(queue[i].clone());
        i += 1;
    }
    assert(query_views(rest@) =~= query_views(queue@).skip(from as int));
    rest
}

impl Clone for QuerySequence {
    fn clone(&self) -> (r: Self)
        ensures
            r@ == self@,
    {
        let tasks = steps_from(&self.tasks, 0);
        assert(query_views(self.tasks@).skip(0) =~= query_views(self.tasks@));
        QuerySequence { key: self.key.clone(), tasks }
    }
}

/// The poller. Takes in the requests that were found finished, in the
/// order given: each one that was running runs no longer, and its
/// normalized answer becomes the cache entry of its resource, with the
/// request that asked for it and its time of arrival. A failure that
/// carries an answer of the server also raises an error notification.
/// When all are taken in, each sequence that owns one of them moves on to
/// its next step, as the queues stood when the tick began. Hands back the
/// requests to run in the background and the notifications.
pub fn api_task_poll(store: &mut QueryStore, finished: Vec<Completion>) -> (r: PollOutcome)
    ensures
        final(store)@ == old(store)@.poll(completion_views(finished@)).store,
        query_views(r.spawn@) == old(store)@.poll(completion_views(finished@)).spawned,
        error_views(r.errors@) == old(store)@.poll(completion_views(finished@)).errors,
{
    let ghost done = completion_views(finished@);
    let ghost begin = TickState::begin(store@);
    let mut advances: VecDeque<QuerySequence> = VecDeque::new();
    let mut errors: Vec<ErrorTriggerEvent> = Vec::new();
    let mut i: usize = 0;
    assert(sequence_views(advances@) =~= begin.advances);
    assert(error_views(errors@) =~= begin.errors);
    assert(done.take(0) =~= Seq::<CompletionView>::empty());
    while i < finished.len()
        invariant
            i <= finished.len(),
            done == completion_views(finished@),
            taking(store@, advances@, errors@) == begin.take_all(done.take(i as int)),
        decreases finished.len() - i,
    {
        let completion = &finished[i];
        let ghost before = taking(store@, advances@, errors@);
        proof {
            assert(done.take(i + 1).drop_last() =~= done.take(i as int));
            assert(done.take(i + 1).last() == completion@);
        }
        match store.loading_requests.map_remove(&completion.key) {
            None => {
                assert(store@.loading_requests =~= before.store.loading_requests);
            },
            Some(query) => {
                match &completion.key.2 {
                    Some(id) => {
                        match store.sequences.map_get(id) {
                            Some(queue) => {
                                if queue.len() > 0 {
                                    let ghost listed = advances@;
                                    let sequence = QuerySequence {
                                        key: id.clone(),
                                        tasks: steps_from(queue, 1),
                                    };
                                    assert(query_views(queue@).skip(1) =~= query_views(
                                        queue@,
                                    ).drop_first());
                                    advances.push_back(sequence);
                                    assert(sequence_views(advances@) =~= sequence_views(
                                        listed,
                                    ).push(sequence@));
                                }
                            },
                            None => {},
                        }
                    },
                    None => {},
                }
                match &completion.outcome {
                    TransportOutcome::Status { code, .. } => {
                        let ghost listed = errors@;
                        let event = ErrorTriggerEvent {
                            url: completion.key.0.clone(),
                            error: *code,
                        };
                        errors.push(event);
                        assert(error_views(errors@) =~= error_views(listed).push(event@));
                    },
                    _ => {},
                }
                let entry = CacheEntry {
                    response: Response::of_outcome(&completion.outcome),
                    query,
                    timestamp: completion.timestamp,
                };
                let resource = (completion.key.0.clone(), completion.key.1.clone());
                store.cache.map_insert(resource, entry);
            },
        }
        assert(taking(store@, advances@, errors@) == before.take(completion@));
        i += 1;
    }
    assert(done.take(finished.len() as int) =~= done);
    let ghost taken = begin.take_all(done);
    let ghost signals = sequence_views(advances@);
    let ghost middle = AdvanceState::begin(store@);
    let mut spawn: Vec<Query> = Vec::new();
    let count = advances.len();
    let mut j: usize = 0;
    assert(query_views(spawn@) =~= middle.spawned);
    assert(signals.take(0) =~= Seq::<QuerySequenceView>::empty());
    assert(signals.skip(0) =~= signals);
    while j < count
        invariant
            j <= count,
            count == signals.len(),
            sequence_views(advances@) == signals.skip(j as int),
            moving(store@, spawn@) == middle.move_all(signals.take(j as int)),
        decreases count - j,
    {
        let ghost before = moving(store@, spawn@);
        let ghost listed = spawn@;
        let ghost waiting = advances@;
        assert(sequence_views(waiting).len() == waiting.len());
        let sequence = advances.pop_front().unwrap();
        proof {
            assert(sequence@ == signals[j as int]) by {
                assert(sequence_views(waiting)[0] == waiting[0]@);
            }
            assert(sequence_views(advances@) =~= signals.skip(j + 1)) by {
                assert(advances@ =~= waiting.skip(1));
                assert(sequence_views(waiting.skip(1)) =~= sequence_views(waiting).skip(1));
                assert(signals.skip(j as int).skip(1) =~= signals.skip(j + 1));
            }
            assert(signals.take(j + 1).drop_last() =~= signals.take(j as int));
            assert(signals.take(j + 1).last() == sequence@);
        }
        match api_task_sequence(store, sequence) {
            Some(step) => {
                spawn.push(step);
                assert(query_views(spawn@) =~= query_views(listed).push(step@));
            },
            None => {},
        }
        assert(moving(store@, spawn@) == before.move_on(sequence@));
        j += 1;
    }
    assert(signals.take(count as int) =~= signals);
    PollOutcome { spawn, errors }
}

/// Whether nothing is cached.
pub fn query_store_is_empty(store: &QueryStore) -> (r: bool)
    ensures
        r == store@.cache.is_empty(),
{
    store.cache.is_empty()
}

/// Whether no request is running, so that a tick has nothing to poll.
pub fn loading_requests_is_empty(store: &QueryStore) -> (r: bool)
    ensures
        r == store@.loading_requests.is_empty(),
{
    store.loading_requests.is_empty()
}

} // verus!
