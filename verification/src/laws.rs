//! Laws of the store: what follows from the model for every store and every
//! request, proved once.

use crate::extractor::{ExtractError, QueryConsumableView};
use crate::model::{
    is_stale, next_step, normalized, reading, reported, AdvanceState, PollState, StoreState,
    TickState,
};
use crate::query::{key_or_empty, InFlightKey, QueryView};
use crate::tables::CacheEntryView;
use crate::tasks::{CompletionView, QuerySequenceView};
use vstd::prelude::*;

verus! {

/// Two requests with the same url, the same query key (an absent one
/// counts as the empty one) and the same owner run once, however their
/// parameters, headers and bodies differ: between them they add at most
/// one running request; if the first runs, the second changes nothing; and
/// where nothing was cached or running for the resource, exactly the first
/// is added.
pub proof fn lemma_same_resource_runs_once(store: StoreState, first: QueryView, second: QueryView)
    requires
        first.url == second.url,
        key_or_empty(first.query_key) == key_or_empty(second.query_key),
        first.sequence_key == second.sequence_key,
    ensures
        first.in_flight_key() == second.in_flight_key(),
        first.resource_key() == second.resource_key(),
        store.submit(first).submit(second).loading_requests.dom().subset_of(
            store.loading_requests.dom().insert(first.in_flight_key()),
        ),
        store.submit(first).loading_requests.contains_key(first.in_flight_key()) ==> store.submit(
            first,
        ).submit(second) == store.submit(first),
        !store.cache.contains_key(first.resource_key()) && !store.loading_requests.contains_key(
            first.in_flight_key(),
        ) ==> store.submit(first).submit(second).loading_requests
            == store.loading_requests.insert(first.in_flight_key(), first),
        !store.cache.contains_key(first.resource_key()) && !store.loading_requests.contains_key(
            first.in_flight_key(),
        ) && store.loading_requests.dom().finite() ==> store.submit(first).submit(
            second,
        ).loading_requests.len() == store.loading_requests.len() + 1,
        StoreState::empty().submit(first).submit(second).loading_requests.len() == 1,
{
}

/// Each part of the store keeps to its own. Submitting a request changes
/// nothing but the running requests, and adds at most the request's own
/// key. An extraction never adds to the cache and never touches the
/// running requests or the sequences; the stale queue grows by at most the
/// request of the entry that was evicted. The watcher of stale requests
/// leaves the cache and the sequences alone.
pub proof fn lemma_parts_keep_to_their_own(
    store: StoreState,
    query: QueryView,
    request: QueryConsumableView,
    now: u128,
)
    ensures
        store.submit(query).cache == store.cache,
        store.submit(query).sequences == store.sequences,
        store.submit(query).stale_queries == store.stale_queries,
        store.loading_requests.submap_of(store.submit(query).loading_requests),
        store.submit(query).loading_requests.dom().subset_of(
            store.loading_requests.dom().insert(query.in_flight_key()),
        ),
        store.extract(request, now).loading_requests == store.loading_requests,
        store.extract(request, now).sequences == store.sequences,
        store.extract(request, now).cache.submap_of(store.cache),
        store.cache.dom().subset_of(
            store.extract(request, now).cache.dom().insert(request.resource_key()),
        ),
        store.extract(request, now).stale_queries == store.stale_queries || (
        store.cache.contains_key(request.resource_key()) && store.extract(
            request,
            now,
        ).stale_queries == store.stale_queries.push(store.cache[request.resource_key()].query)),
        store.drain().cache == store.cache,
        store.drain().sequences == store.sequences,
{
}

/// Two requests with the same url and different query keys do not touch
/// each other: they run under different keys and are cached under
/// different keys, whether one is accepted does not depend on the other
/// having been submitted, and the order of submitting them does not
/// matter.
pub proof fn lemma_query_keys_are_independent(
    store: StoreState,
    first: QueryView,
    second: QueryView,
)
    requires
        first.url == second.url,
        key_or_empty(first.query_key) != key_or_empty(second.query_key),
    ensures
        first.in_flight_key() != second.in_flight_key(),
        first.resource_key() != second.resource_key(),
        store.submit(first).accepts(second) == store.accepts(second),
        store.submit(second).accepts(first) == store.accepts(first),
        store.submit(first).submit(second) == store.submit(second).submit(first),
        store.accepts(first) && store.accepts(second) ==> store.submit(first).submit(
            second,
        ).loading_requests == store.loading_requests.insert(first.in_flight_key(), first).insert(
            second.in_flight_key(),
            second,
        ),
{
    let both = store.submit(first).submit(second);
    let other = store.submit(second).submit(first);
    assert(both.loading_requests =~= other.loading_requests);
}

/// An extraction that forces the next refetch consumes the entry: whatever
/// it returned, the resource is no longer cached afterwards, so that the
/// same request, asked again at any time, finds no match. Where the entry
/// was not stale, the first extraction returned what the entry held.
pub proof fn lemma_forced_extraction_consumes(
    store: StoreState,
    request: QueryConsumableView,
    now: u128,
    later: u128,
)
    requires
        request.force_next_refetch,
    ensures
        !store.extract(request, now).cache.contains_key(request.resource_key()),
        store.extract(request, now).extract_result(request, later) == Err::<
            serde_json::Value,
            ExtractError,
        >(ExtractError::NoMatch),
        store.cache.contains_key(request.resource_key()) && !is_stale(
            store.cache[request.resource_key()].timestamp,
            request.stale_time,
            now,
        ) ==> store.extract_result(request, now) == reading(
            store.cache[request.resource_key()].response,
        ),
{
}

/// Staleness. Of an entry that is cached, and a consumer with the budget
/// `budget`: when more time than the budget has passed since the entry
/// arrived, the extraction fails with `Stale`, the entry leaves the cache
/// and its request joins the end of the stale queue. When no more than the
/// budget has passed and the consumer does not force a refetch, the store
/// stays as it is and the entry is read; an entry that holds an answer of
/// status 200 with a body then gives that body.
pub proof fn lemma_staleness(
    store: StoreState,
    request: QueryConsumableView,
    budget: u128,
    now: u128,
)
    requires
        store.cache.contains_key(request.resource_key()),
        request.stale_time == Some(budget),
    ensures
        now - store.cache[request.resource_key()].timestamp > budget ==> {
            &&& store.extract_result(request, now) == Err::<serde_json::Value, ExtractError>(
                ExtractError::Stale,
            )
            &&& !store.extract(request, now).cache.contains_key(request.resource_key())
            &&& store.extract(request, now).stale_queries == store.stale_queries.push(
                store.cache[request.resource_key()].query,
            )
        },
        now - store.cache[request.resource_key()].timestamp <= budget
            && !request.force_next_refetch ==> {
            &&& store.extract(request, now) == store
            &&& store.extract_result(request, now) == reading(
                store.cache[request.resource_key()].response,
            )
        },
        now - store.cache[request.resource_key()].timestamp <= budget
            && store.cache[request.resource_key()].response.status == 200
            && store.cache[request.resource_key()].response.body.is_some()
            ==> store.extract_result(request, now) == Ok::<serde_json::Value, ExtractError>(
            store.cache[request.resource_key()].response.body.unwrap(),
        ),
{
}

/// Every operation keeps the store well formed: the empty store is, and so
/// is a well-formed store after a request was submitted, a sequence set
/// up, a consumer served or the watcher given its turn.
pub proof fn lemma_well_formed_is_kept(
    store: StoreState,
    query: QueryView,
    key: Seq<char>,
    tasks: Seq<QueryView>,
    request: QueryConsumableView,
    now: u128,
)
    requires
        store.well_formed(),
    ensures
        StoreState::empty().well_formed(),
        store.submit(query).well_formed(),
        store.start(key, tasks).well_formed(),
        store.extract(request, now).well_formed(),
        store.drain().well_formed(),
{
    let queued = store.enqueue(key, tasks);
    assert(queued.well_formed());
    if tasks.len() > 0 {
        assert(queued.submit(tasks[0].tagged(key)).well_formed());
    }
    if store.stale_queries.len() > 0 {
        let rest = StoreState { stale_queries: store.stale_queries.drop_first(), ..store };
        assert(rest.well_formed());
        assert(rest.submit(store.stale_queries[0]).well_formed());
    }
}

/// Taking in finished requests keeps the store well formed.
pub proof fn lemma_taking_keeps_well_formed(from: TickState, done: Seq<CompletionView>)
    requires
        from.store.well_formed(),
    ensures
        from.take_all(done).store.well_formed(),
    decreases done.len(),
{
    if done.len() > 0 {
        lemma_taking_keeps_well_formed(from, done.drop_last());
        let before = from.take_all(done.drop_last());
        let last = done.last();
        if before.store.loading_requests.contains_key(last.key) {
            let query = before.store.loading_requests[last.key];
            assert(query.in_flight_key() == last.key);
            assert(query.resource_key() == (last.key.0, last.key.1));
        }
    }
}

/// Moving sequences on keeps the store well formed.
pub proof fn lemma_moving_keeps_well_formed(from: AdvanceState, sequences: Seq<QuerySequenceView>)
    requires
        from.store.well_formed(),
    ensures
        from.move_all(sequences).store.well_formed(),
    decreases sequences.len(),
{
    if sequences.len() > 0 {
        lemma_moving_keeps_well_formed(from, sequences.drop_last());
        let before = from.move_all(sequences.drop_last());
        let last = sequences.last();
        let queued = before.store.enqueue(last.key, last.tasks);
        assert(queued.well_formed());
        if last.tasks.len() > 0 {
            assert(queued.submit(last.tasks[0].tagged(last.key)).well_formed());
        }
    }
}

/// A tick keeps the store well formed.
pub proof fn lemma_tick_keeps_well_formed(store: StoreState, done: Seq<CompletionView>)
    requires
        store.well_formed(),
    ensures
        store.poll(done).store.well_formed(),
{
    lemma_taking_keeps_well_formed(TickState::begin(store), done);
    let taken = TickState::begin(store).take_all(done);
    lemma_moving_keeps_well_formed(AdvanceState::begin(taken.store), taken.advances);
}

/// The cache entry that taking in `done` makes, where `query` was the
/// request that ran.
pub open spec fn entry_of(done: CompletionView, query: QueryView) -> CacheEntryView {
    CacheEntryView {
        response: normalized(done.outcome),
        query,
        timestamp: done.timestamp,
    }
}

/// Whether `step` is the request that follows the one finished by `done`:
/// `done` was running in `store`, a sequence of `store` owns it, and `step`
/// is the second of that sequence's steps, marked with the sequence's key.
pub open spec fn follows(store: StoreState, done: CompletionView, step: QueryView) -> bool {
    &&& store.loading_requests.contains_key(done.key)
    &&& store.advance_of(done.key) matches Some(sequence) && next_step(
        sequence.key,
        sequence.tasks,
    ) == Some(step)
}

/// Whether the tick that takes in `done` lists `sequence` to move on: one
/// of `done` was running in `store`, and `sequence` is what its owner has
/// left.
pub open spec fn listed_by(
    store: StoreState,
    done: Seq<CompletionView>,
    sequence: QuerySequenceView,
) -> bool {
    exists|i: int|
        0 <= i < done.len() && store.loading_requests.contains_key((#[trigger] done[i]).key)
            && store.advance_of(done[i].key) == Some(sequence)
}

/// Whether `step` is the first step of one of `sequences`, marked with its
/// key.
pub open spec fn first_step_of(sequences: Seq<QuerySequenceView>, step: QueryView) -> bool {
    exists|k: int|
        0 <= k < sequences.len() && next_step((#[trigger] sequences[k]).key, sequences[k].tasks)
            == Some(step)
}

/// Whether `step` follows one of the requests that `done` reports
/// finished.
pub open spec fn awaited(store: StoreState, done: Seq<CompletionView>, step: QueryView) -> bool {
    exists|i: int| 0 <= i < done.len() && follows(store, #[trigger] done[i], step)
}

/// Moving sequences on leaves the cache and the stale queue as they are.
pub proof fn lemma_moving_keeps_cache(from: AdvanceState, sequences: Seq<QuerySequenceView>)
    ensures
        from.move_all(sequences).store.cache == from.store.cache,
        from.move_all(sequences).store.stale_queries == from.store.stale_queries,
    decreases sequences.len(),
{
    if sequences.len() > 0 {
        lemma_moving_keeps_cache(from, sequences.drop_last());
    }
}

/// Taking in finished requests leaves the sequences and the stale queue as
/// they are, starts nothing, and lists only sequences that own a request
/// which was running and is among those taken in.
pub proof fn lemma_taking_lists_owners(store: StoreState, done: Seq<CompletionView>)
    ensures
        TickState::begin(store).take_all(done).store.sequences == store.sequences,
        TickState::begin(store).take_all(done).store.stale_queries == store.stale_queries,
        TickState::begin(store).take_all(done).store.loading_requests.submap_of(
            store.loading_requests,
        ),
        forall|k: int|
            0 <= k < TickState::begin(store).take_all(done).advances.len() ==> listed_by(
                store,
                done,
                #[trigger] TickState::begin(store).take_all(done).advances[k],
            ),
    decreases done.len(),
{
    if done.len() > 0 {
        let earlier = done.drop_last();
        lemma_taking_lists_owners(store, earlier);
        let before = TickState::begin(store).take_all(earlier);
        let after = TickState::begin(store).take_all(done);
        assert(after == before.take(done.last()));
        assert forall|k: int| 0 <= k < after.advances.len() implies listed_by(
            store,
            done,
            #[trigger] after.advances[k],
        ) by {
            if k < before.advances.len() {
                assert(listed_by(store, earlier, before.advances[k]));
                let i = choose|i: int|
                    0 <= i < earlier.len() && store.loading_requests.contains_key(
                        (#[trigger] earlier[i]).key,
                    ) && store.advance_of(earlier[i].key) == Some(before.advances[k]);
                assert(done[i] == earlier[i]);
                assert(after.advances[k] == before.advances[k]);
            } else {
                let i = done.len() - 1;
                assert(done[i] == done.last());
            }
        }
    }
}

/// Each request that moving sequences on sends off is the first step of one
/// of those sequences, marked with its key.
pub proof fn lemma_moving_sends_first_steps(from: AdvanceState, sequences: Seq<QuerySequenceView>)
    ensures
        from.move_all(sequences).spawned.len() >= from.spawned.len(),
        forall|j: int|
            0 <= j < from.spawned.len() ==> from.move_all(sequences).spawned[j] == from.spawned[j],
        forall|j: int|
            from.spawned.len() <= j < from.move_all(sequences).spawned.len() ==> first_step_of(
                sequences,
                #[trigger] from.move_all(sequences).spawned[j],
            ),
    decreases sequences.len(),
{
    if sequences.len() > 0 {
        let earlier = sequences.drop_last();
        lemma_moving_sends_first_steps(from, earlier);
        let before = from.move_all(earlier);
        let after = from.move_all(sequences);
        assert(after == before.move_on(sequences.last()));
        assert forall|j: int| from.spawned.len() <= j < after.spawned.len() implies first_step_of(
            sequences,
            #[trigger] after.spawned[j],
        ) by {
            if j < before.spawned.len() {
                assert(first_step_of(earlier, before.spawned[j]));
                let k = choose|k: int|
                    0 <= k < earlier.len() && next_step(
                        (#[trigger] earlier[k]).key,
                        earlier[k].tasks,
                    ) == Some(before.spawned[j]);
                assert(sequences[k] == earlier[k]);
            } else {
                let k = sequences.len() - 1;
                assert(sequences[k] == sequences.last());
            }
        }
    }
}

/// Steps run in order. Setting a sequence up sends off at most its first
/// step, marked with the sequence's key, and starts no other request. A
/// tick sends off only requests that follow one it has just taken in: the
/// next step of a sequence is never sent off before the poller has seen
/// the step before it finished.
pub proof fn lemma_steps_wait_for_their_predecessor(
    store: StoreState,
    key: Seq<char>,
    tasks: Seq<QueryView>,
    done: Seq<CompletionView>,
)
    ensures
        store.start_spawns(key, tasks).is_some() ==> tasks.len() > 0 && store.start_spawns(
            key,
            tasks,
        ) == Some(tasks[0].tagged(key)),
        tasks.len() > 0 ==> store.start(key, tasks).loading_requests.dom().subset_of(
            store.loading_requests.dom().insert(tasks[0].tagged(key).in_flight_key()),
        ),
        tasks.len() == 0 ==> store.start(key, tasks).loading_requests == store.loading_requests,
        forall|j: int|
            0 <= j < store.poll(done).spawned.len() ==> awaited(
                store,
                done,
                #[trigger] store.poll(done).spawned[j],
            ),
{
    let taken = TickState::begin(store).take_all(done);
    let from = AdvanceState::begin(taken.store);
    let moved = from.move_all(taken.advances);
    lemma_taking_lists_owners(store, done);
    lemma_moving_sends_first_steps(from, taken.advances);
    assert forall|j: int| 0 <= j < store.poll(done).spawned.len() implies awaited(
        store,
        done,
        #[trigger] store.poll(done).spawned[j],
    ) by {
        let step = moved.spawned[j];
        assert(first_step_of(taken.advances, step));
        let k = choose|k: int|
            0 <= k < taken.advances.len() && next_step(
                (#[trigger] taken.advances[k]).key,
                taken.advances[k].tasks,
            ) == Some(step);
        assert(listed_by(store, done, taken.advances[k]));
        let i = choose|i: int|
            0 <= i < done.len() && store.loading_requests.contains_key((#[trigger] done[i]).key)
                && store.advance_of(done[i].key) == Some(taken.advances[k]);
        assert(follows(store, done[i], step));
    }
}

/// What a tick comes to that is handed one finished request which was
/// running: the request is taken in, and the sequence that owns it, if it
/// has steps left, moves on.
pub open spec fn poll_one(store: StoreState, done: CompletionView) -> PollState {
    let settled = store.settle(done);
    let errors = match reported(done.key, done.outcome) {
        Some(event) => seq![event],
        None => Seq::empty(),
    };
    match store.advance_of(done.key) {
        Some(sequence) => PollState {
            store: settled.start(sequence.key, sequence.tasks),
            spawned: match settled.start_spawns(sequence.key, sequence.tasks) {
                Some(step) => seq![step],
                None => Seq::empty(),
            },
            errors,
        },
        None => PollState { store: settled, spawned: Seq::empty(), errors },
    }
}

/// A tick with one finished request. One that was not running changes
/// nothing and asks for nothing. One that was running is taken in, raises
/// its error notification if it has one, and moves its sequence on: a
/// sequence with a further step keeps the steps after the finished one and
/// submits the first of them; a sequence without a further step is over and
/// is no longer kept.
pub proof fn lemma_tick_with_one(store: StoreState, done: CompletionView)
    ensures
        !store.loading_requests.contains_key(done.key) ==> store.poll(seq![done]) == (PollState {
            store,
            spawned: Seq::empty(),
            errors: Seq::empty(),
        }),
        store.loading_requests.contains_key(done.key) ==> store.poll(seq![done]) == poll_one(
            store,
            done,
        ),
{
    let list = seq![done];
    assert(list.drop_last() =~= Seq::<CompletionView>::empty());
    assert(list.last() == done);
    reveal_with_fuel(TickState::take_all, 2);
    reveal_with_fuel(AdvanceState::move_all, 2);
    let taken = TickState::begin(store).take_all(list);
    assert(taken == TickState::begin(store).take(done));
    let from = AdvanceState::begin(taken.store);
    if store.loading_requests.contains_key(done.key) {
        match store.advance_of(done.key) {
            Some(sequence) => {
                assert(taken.advances =~= seq![sequence]);
                assert(taken.advances.drop_last() =~= Seq::<QuerySequenceView>::empty());
                assert(taken.advances.last() == sequence);
                assert(from.move_all(taken.advances) == from.move_on(sequence));
                assert(store.poll(list).spawned =~= poll_one(store, done).spawned);
            },
            None => {
                assert(taken.advances =~= Seq::<QuerySequenceView>::empty());
            },
        }
        assert(store.poll(list).errors =~= poll_one(store, done).errors);
    }
}

/// The first of a sequence's steps is the one that runs. After a sequence
/// was set up with at least one step, its queue is the steps as given, and
/// where the dispatcher accepted the first step, that step, marked with
/// the sequence's key, is running. After the tick that takes the running
/// step in, the queue is the steps after it, and where the dispatcher
/// accepted the next step, that step is running; a sequence whose last
/// step was taken in is gone.
pub proof fn lemma_first_step_runs(
    store: StoreState,
    key: Seq<char>,
    tasks: Seq<QueryView>,
    done: CompletionView,
)
    requires
        tasks.len() > 0,
        store.accepts(tasks[0].tagged(key)),
        done.key == tasks[0].tagged(key).in_flight_key(),
    ensures
        store.start(key, tasks).sequences[key] == tasks,
        store.start(key, tasks).loading_requests[done.key] == tasks[0].tagged(key),
        tasks.len() == 1 ==> !store.start(key, tasks).poll(seq![done]).store.sequences.contains_key(
            key,
        ) && store.start(key, tasks).poll(seq![done]).spawned.len() == 0,
        tasks.len() > 1 ==> store.start(key, tasks).poll(seq![done]).store.sequences[key]
            == tasks.drop_first(),
        tasks.len() > 1 && store.start(key, tasks).settle(done).accepts(tasks[1].tagged(key))
            ==> store.start(key, tasks).poll(seq![done]).spawned == seq![tasks[1].tagged(key)]
            && store.start(key, tasks).poll(seq![done]).store.loading_requests[tasks[1].tagged(
            key,
        ).in_flight_key()] == tasks[1].tagged(key),
{
    let started = store.start(key, tasks);
    lemma_tick_with_one(started, done);
    assert(started.advance_of(done.key) == Some(
        QuerySequenceView { key, tasks: tasks.drop_first() },
    ));
}

/// One step at a time. Where the request finished by `done` is the only
/// one that runs for the sequence `id`, then after the tick that takes it
/// in at most one request runs for that sequence: the one that the tick
/// has sent off.
pub proof fn lemma_one_step_at_a_time(store: StoreState, done: CompletionView, id: Seq<char>)
    requires
        store.loading_requests.contains_key(done.key),
        done.key.2 == Some(id),
        forall|k: InFlightKey|
            #[trigger] store.loading_requests.contains_key(k) && k.2 == Some(id) ==> k == done.key,
    ensures
        forall|k: InFlightKey|
            #[trigger] store.poll(seq![done]).store.loading_requests.contains_key(k) && k.2
                == Some(id) ==> store.poll(seq![done]).spawned.len() == 1 && k == store.poll(
                seq![done],
            ).spawned[0].in_flight_key(),
{
    lemma_tick_with_one(store, done);
    let after = store.poll(seq![done]);
    assert forall|k: InFlightKey|
        #[trigger] after.store.loading_requests.contains_key(k) && k.2 == Some(
            id,
        ) implies after.spawned.len() == 1 && k == after.spawned[0].in_flight_key() by {
        if store.settle(done).loading_requests.contains_key(k) {
            assert(store.loading_requests.contains_key(k));
        }
    }
}

/// A tick caches what it takes in. Of a request that is running under the
/// key of `done`: a tick that is handed `done` alone makes the answer the
/// cache entry of the request's resource, with the request that ran and
/// the time of arrival that came with `done`; every other entry of the
/// cache stays, and so does the stale queue.
pub proof fn lemma_tick_caches_one(store: StoreState, done: CompletionView)
    requires
        store.loading_requests.contains_key(done.key),
    ensures
        store.poll(seq![done]).store.cache == store.cache.insert(
            (done.key.0, done.key.1),
            entry_of(done, store.loading_requests[done.key]),
        ),
        store.poll(seq![done]).store.stale_queries == store.stale_queries,
{
    let list = seq![done];
    assert(list.drop_last() =~= Seq::<CompletionView>::empty());
    assert(list.last() == done);
    reveal_with_fuel(TickState::take_all, 2);
    let taken = TickState::begin(store).take_all(list);
    assert(taken == TickState::begin(store).take(done));
    let from = AdvanceState::begin(taken.store);
    lemma_moving_keeps_cache(from, taken.advances);
}

/// A tick that is handed two finished requests of different resources
/// caches both, each under its own key with its own request and time of
/// arrival.
pub proof fn lemma_tick_caches_two(store: StoreState, first: CompletionView, second: CompletionView)
    requires
        store.loading_requests.contains_key(first.key),
        store.loading_requests.contains_key(second.key),
        (first.key.0, first.key.1) != (second.key.0, second.key.1),
    ensures
        store.poll(seq![first, second]).store.cache == store.cache.insert(
            (first.key.0, first.key.1),
            entry_of(first, store.loading_requests[first.key]),
        ).insert(
            (second.key.0, second.key.1),
            entry_of(second, store.loading_requests[second.key]),
        ),
{
    let list = seq![first, second];
    assert(list.drop_last() =~= seq![first]);
    assert(list.last() == second);
    assert(seq![first].drop_last() =~= Seq::<CompletionView>::empty());
    assert(seq![first].last() == first);
    reveal_with_fuel(TickState::take_all, 3);
    let taken = TickState::begin(store).take_all(list);
    assert(taken == TickState::begin(store).take(first).take(second));
    let from = AdvanceState::begin(taken.store);
    lemma_moving_keeps_cache(from, taken.advances);
}

/// Two requests for one resource come to one cache entry. Where nothing
/// was cached or running for the resource, and both requests were
/// submitted, the tick that takes in the one request that runs caches its
/// answer under the resource's key, with the first request as the one that
/// asked; the cache gains that entry and no other.
pub proof fn lemma_same_resource_is_cached_once(
    store: StoreState,
    first: QueryView,
    second: QueryView,
    done: CompletionView,
)
    requires
        first.url == second.url,
        key_or_empty(first.query_key) == key_or_empty(second.query_key),
        first.sequence_key == second.sequence_key,
        !store.cache.contains_key(first.resource_key()),
        !store.loading_requests.contains_key(first.in_flight_key()),
        done.key == first.in_flight_key(),
    ensures
        store.submit(first).submit(second).poll(seq![done]).store.cache == store.cache.insert(
            first.resource_key(),
            entry_of(done, first),
        ),
{
    lemma_same_resource_runs_once(store, first, second);
    lemma_tick_caches_one(store.submit(first).submit(second), done);
}

/// Two requests with the same url and different query keys come to two
/// cache entries. Where the dispatcher accepted both, the tick that takes
/// both in caches each answer under its own key, with its own request and
/// its own time of arrival.
pub proof fn lemma_query_keys_are_cached_apart(
    store: StoreState,
    first: QueryView,
    second: QueryView,
    first_done: CompletionView,
    second_done: CompletionView,
)
    requires
        first.url == second.url,
        key_or_empty(first.query_key) != key_or_empty(second.query_key),
        store.accepts(first),
        store.accepts(second),
        first_done.key == first.in_flight_key(),
        second_done.key == second.in_flight_key(),
    ensures
        first.resource_key() != second.resource_key(),
        store.submit(first).submit(second).poll(seq![first_done, second_done]).store.cache
            == store.cache.insert(first.resource_key(), entry_of(first_done, first)).insert(
            second.resource_key(),
            entry_of(second_done, second),
        ),
{
    lemma_query_keys_are_independent(store, first, second);
    lemma_tick_caches_two(store.submit(first).submit(second), first_done, second_done);
}

/// The cache keeps the times of arrival in the order in which the ticks
/// were handed them. Of two requests of different resources, the first
/// taken in by one tick and the second by the next: if the second did not
/// arrive before the first, the entry of the first is not younger than the
/// entry of the second. A step of a sequence and the step after it are
/// such a pair, since the later step is sent off only by the tick that
/// takes the earlier one in.
pub proof fn lemma_arrival_order_is_kept(
    store: StoreState,
    first_done: CompletionView,
    second_done: CompletionView,
)
    requires
        store.loading_requests.contains_key(first_done.key),
        store.poll(seq![first_done]).store.loading_requests.contains_key(second_done.key),
        (first_done.key.0, first_done.key.1) != (second_done.key.0, second_done.key.1),
        first_done.timestamp <= second_done.timestamp,
    ensures
        ({
            let end = store.poll(seq![first_done]).store.poll(seq![second_done]).store;
            &&& end.cache.contains_key((first_done.key.0, first_done.key.1))
            &&& end.cache.contains_key((second_done.key.0, second_done.key.1))
            &&& end.cache[(first_done.key.0, first_done.key.1)].timestamp == first_done.timestamp
            &&& end.cache[(second_done.key.0, second_done.key.1)].timestamp
                == second_done.timestamp
            &&& end.cache[(first_done.key.0, first_done.key.1)].timestamp <= end.cache[(
                second_done.key.0,
                second_done.key.1,
            )].timestamp
        }),
{
    lemma_tick_caches_one(store, first_done);
    lemma_tick_caches_one(store.poll(seq![first_done]).store, second_done);
}

/// A sequence of two steps. Where the dispatcher accepts both steps when
/// their turn comes, and the two are different resources: setting the
/// sequence up starts the first step and nothing else; the tick that takes
/// the first step in sends off the second; the tick that takes the second
/// in ends the sequence. Both answers are then cached with the times of
/// arrival that came with them, so that, if the second did not arrive
/// before the first, the entry of the first step is not younger than the
/// entry of the second.
pub proof fn lemma_sequence_of_two(
    store: StoreState,
    key: Seq<char>,
    first: QueryView,
    second: QueryView,
    first_done: CompletionView,
    second_done: CompletionView,
)
    requires
        first.resource_key() != second.resource_key(),
        store.accepts(first.tagged(key)),
        store.start(key, seq![first, second]).settle(first_done).accepts(second.tagged(key)),
        first_done.key == first.tagged(key).in_flight_key(),
        second_done.key == second.tagged(key).in_flight_key(),
        first_done.timestamp <= second_done.timestamp,
    ensures
        ({
            let started = store.start(key, seq![first, second]);
            let midway = started.poll(seq![first_done]);
            let end = midway.store.poll(seq![second_done]);
            &&& started.loading_requests == store.loading_requests.insert(
                first_done.key,
                first.tagged(key),
            )
            &&& store.start_spawns(key, seq![first, second]) == Some(first.tagged(key))
            &&& midway.spawned == seq![second.tagged(key)]
            &&& midway.store.sequences[key] == seq![second]
            &&& end.spawned.len() == 0
            &&& !end.store.sequences.contains_key(key)
            &&& end.store.cache[first.resource_key()] == entry_of(first_done, first.tagged(key))
            &&& end.store.cache[second.resource_key()] == entry_of(
                second_done,
                second.tagged(key),
            )
            &&& end.store.cache[first.resource_key()].timestamp <= end.store.cache[
                second.resource_key()
            ].timestamp
        }),
{
    let tasks = seq![first, second];
    let started = store.start(key, tasks);
    let midway = started.poll(seq![first_done]);
    assert(tasks.drop_first() =~= seq![second]);
    assert(started.advance_of(first_done.key) == Some(
        QuerySequenceView { key, tasks: seq![second] },
    ));
    lemma_tick_with_one(started, first_done);
    lemma_tick_with_one(midway.store, second_done);
    assert(seq![second].drop_first() =~= Seq::<QueryView>::empty());
    assert(midway.store.advance_of(second_done.key) == Some(
        QuerySequenceView { key, tasks: Seq::<QueryView>::empty() },
    ));
}

} // verus!
