//! The store driven as a host drives it: requests are sent to a server
//! that answers from a table, and every update takes in what has finished.

use query_tasks::extractor::{
    check_completed_queries, decoded, query_extractor, ExtractError, QueryConsumable,
};
use query_tasks::tasks::{
    api_task_poll, api_task_sequence, spawn_api_task, watch_cache, Completion, Method, Query,
    QueryBuilder, QuerySequence, QueryStore, TransportOutcome,
};

/// The body that consumers ask for.
struct GetResponse {
    msg: String,
}

/// The answers of the server, by path.
fn table(path: &str) -> Option<&'static str> {
    match path {
        "/" => Some("{\"msg\": \"\"}"),
        "/extractor" => Some("{\"msg\": \"hello world\"}"),
        "/force_next_refetch" => Some("{\"msg\": \"Should be consumed once\"}"),
        "/same_url" => Some("{\"msg\": \"success\"}"),
        "/same_url?second_request=is_discarded" => Some("{\"msg\": \"fail\"}"),
        "/same_url_collision_cache_fetch" => Some("{\"msg\": \"success\"}"),
        "/same_url_collision_cache_fetch?second_request=is_discarded" => {
            Some("{\"msg\": \"fail\"}")
        }
        "/is_stale" => Some("{\"msg\": \"Should not be consumed\"}"),
        "/refetch" => Some("{\"msg\": \"Should refetch\"}"),
        "/seq1" => Some("{\"msg\": \"1\"}"),
        "/seq2" => Some("{\"msg\": \"2\"}"),
        _ => None,
    }
}

/// A server that answers every request alike.
fn hello(_path: &str) -> Option<&'static str> {
    Some("{\"msg\": \"hello world\"}")
}

/// A host: the store, the requests asked for but not yet submitted, the
/// requests that run with their time of start, and a clock in
/// milliseconds.
struct Host {
    store: QueryStore,
    triggered: Vec<Query>,
    sequences: Vec<QuerySequence>,
    running: Vec<(Query, u128)>,
    clock: u128,
    server: fn(&str) -> Option<&'static str>,
}

impl Host {
    fn new(server: fn(&str) -> Option<&'static str>) -> Host {
        Host {
            store: QueryStore::default(),
            triggered: Vec::new(),
            sequences: Vec::new(),
            running: Vec::new(),
            clock: 1_000,
            server,
        }
    }

    fn trigger(&mut self, query: Query) {
        self.triggered.push(query);
    }

    fn sleep(&mut self, millis: u128) {
        self.clock += millis;
    }

    /// What the server delivers for a request.
    fn call(&self, query: &Query) -> TransportOutcome {
        let mut path = query
            .url
            .strip_prefix("http://127.0.0.1:8080")
            .unwrap_or(query.url.as_str())
            .to_string();
        if let Some(params) = &query.params {
            let pairs: Vec<String> = params.iter().map(|(k, v)| format!("{}={}", k, v)).collect();
            path = format!("{}?{}", path, pairs.join("&"));
        }
        match (self.server)(&path) {
            Some(body) => TransportOutcome::Body(body.as_bytes().to_vec()),
            None => TransportOutcome::Transport,
        }
    }

    /// One update: what was asked for is submitted, what ran before this
    /// update is taken in, and the watcher has its turn. A request that is
    /// sent off now has not finished before the next update.
    fn update(&mut self) {
        let earlier: Vec<(Query, u128)> = self.running.drain(..).collect();
        for sequence in self.sequences.drain(..).collect::<Vec<QuerySequence>>() {
            if let Some(step) = api_task_sequence(&mut self.store, sequence) {
                self.running.push((step, self.clock));
            }
        }
        for query in self.triggered.drain(..).collect::<Vec<Query>>() {
            if let Some(spawned) = spawn_api_task(&mut self.store, query) {
                self.running.push((spawned, self.clock));
            }
        }
        let mut finished = Vec::new();
        for (query, started) in earlier.iter() {
            finished.push(Completion {
                key: query.in_flight_key(),
                outcome: self.call(query),
                timestamp: *started,
            });
        }
        let outcome = api_task_poll(&mut self.store, finished);
        for step in outcome.spawn {
            self.running.push((step, self.clock));
        }
        if let Some(again) = watch_cache(&mut self.store) {
            self.running.push((again, self.clock));
        }
        self.clock += 1;
    }

    /// The consumer's side: the body as a `GetResponse`.
    fn extract(&mut self, consumable: QueryConsumable) -> Result<GetResponse, ExtractError> {
        let body = query_extractor(consumable, &mut self.store, self.clock)?;
        decoded(
            body.get("msg")
                .and_then(|msg| msg.as_str())
                .map(|msg| GetResponse { msg: msg.to_string() }),
        )
    }
}

#[test]
fn query_cache() {
    let mut app = Host::new(hello);

    app.trigger(
        QueryBuilder::default()
            .method(Method::Get)
            .url("http://127.0.0.1:8080")
            .build(),
    );

    loop {
        let result = app.extract(QueryConsumable {
            url: "http://127.0.0.1:8080".to_string(),
            ..Default::default()
        });
        if let Ok(response) = result {
            assert_eq!(response.msg, "hello world");
            break;
        }

        app.update();
    }
}

#[test]
fn same_query_key() {
    let url = "http://127.0.0.1:8080/same_query_key";
    let mut app = Host::new(table);

    app.trigger(
        QueryBuilder::default()
            .method(Method::Get)
            .url(url)
            .query_key("collision_test")
            .build(),
    );

    app.trigger(
        QueryBuilder::default()
            .method(Method::Get)
            .url(url)
            .params(vec![(String::from("param1"), "value1".to_string())])
            .query_key("collision_test")
            .build(),
    );

    app.update();

    assert!(app.store.loading_requests.len() == 1);
}

#[test]
fn same_url() {
    let url = "http://127.0.0.1:8080/same_url";
    let mut app = Host::new(table);

    app.trigger(QueryBuilder::default().method(Method::Get).url(url).build());

    app.trigger(
        QueryBuilder::default()
            .method(Method::Get)
            .url(url)
            .params(vec![(String::from("second_request"), "is_discarded".to_string())])
            .build(),
    );

    loop {
        let result = app.extract(QueryConsumable { url: url.to_string(), ..Default::default() });

        if let Ok(response) = result {
            println!("test response {:#?}", response.msg);
            assert_eq!(response.msg, "success");
            break;
        }

        app.update();
    }
    assert!(app.store.cache.len() == 1);
}

#[test]
fn same_url_different_query_key() {
    let url = "http://127.0.0.1:8080/same_url_different_query_key";
    let mut app = Host::new(table);

    app.trigger(
        QueryBuilder::default()
            .method(Method::Get)
            .url(url)
            .query_key("key1")
            .build(),
    );

    app.trigger(
        QueryBuilder::default()
            .method(Method::Get)
            .url(url)
            .query_key("key2")
            .build(),
    );

    app.update();
    assert!(app.store.loading_requests.len() == 2);
}

#[test]
fn extract_extractor() {
    let url = "http://127.0.0.1:8080/extractor";
    let mut app = Host::new(table);

    app.trigger(QueryBuilder::default().method(Method::Get).url(url).build());

    loop {
        let result = app.extract(QueryConsumable { url: url.to_string(), ..Default::default() });
        if let Ok(response) = result {
            assert_eq!(response.msg, "hello world");
            break;
        }

        app.update();
    }
}

#[test]
fn force_next_refetch() {
    let url = "http://127.0.0.1:8080/force_next_refetch";
    let mut app = Host::new(table);

    app.trigger(QueryBuilder::default().method(Method::Get).url(url).build());

    for index in 0..2 {
        let result = app.extract(QueryConsumable {
            url: url.to_string(),
            force_next_refetch: true,
            ..Default::default()
        });
        if index > 0 {
            assert!(result.is_err());
        } else if let Ok(response) = result {
            assert_eq!(response.msg, "Should be consumed once");
            break;
        }

        app.update();
    }
}

#[test]
fn extract_response_extractor() {
    let url = "http://127.0.0.1:8080/extractor";
    let mut app = Host::new(table);

    app.trigger(
        QueryBuilder::default()
            .method(Method::Get)
            .url(url)
            .headers(vec![("Connection".to_string(), "close".to_string())])
            .build(),
    );

    loop {
        let result = app.extract(QueryConsumable { url: url.to_string(), ..Default::default() });
        if let Ok(response) = result {
            assert_eq!(response.msg, "hello world");
            break;
        }

        app.update();
    }
}

#[test]
fn loading() {
    let url = "http://127.0.0.1:8080/";
    let mut app = Host::new(table);

    app.trigger(QueryBuilder::default().method(Method::Get).url(url).build());
    app.update();
    assert!(app.store.loading_requests.len() == 1);
}

#[test]
fn sequence() {
    let url1 = "http://127.0.0.1:8080/seq1";
    let url2 = "http://127.0.0.1:8080/seq2";
    let mut app = Host::new(table);

    app.sequences.push(QuerySequence {
        key: "sequence".to_string(),
        tasks: vec![
            QueryBuilder::default().method(Method::Post).url(url1).build(),
            QueryBuilder::default().method(Method::Get).url(url2).build(),
        ]
        .into(),
    });

    loop {
        let tasks = vec![
            QueryConsumable { url: url1.to_string(), ..Default::default() },
            QueryConsumable { url: url2.to_string(), ..Default::default() },
        ];
        if check_completed_queries(tasks.clone(), &app.store.cache) {
            let url1_time = app
                .store
                .cache
                .get(&(url1.to_string(), String::new()))
                .map(|entry| entry.timestamp)
                .unwrap();
            let url2_time = app
                .store
                .cache
                .get(&(url2.to_string(), String::new()))
                .map(|entry| entry.timestamp)
                .unwrap();
            assert!(url1_time <= url2_time, "url1 was not called before url2");
            assert!(url1_time < url2_time);
            break;
        }

        app.update();
    }
}

#[test]
fn is_staletime() {
    let url = "http://127.0.0.1:8080/is_stale";
    let mut app = Host::new(table);

    app.trigger(QueryBuilder::default().method(Method::Get).url(url).build());

    let mut stale = false;
    loop {
        app.sleep(250);

        let result = app.extract(QueryConsumable {
            url: url.to_string(),
            stale_time: Some(200),
            ..Default::default()
        });

        if let Ok(response) = &result {
            assert_ne!(response.msg, "Should not be consumed");
            break;
        }
        if let Err(e) = result {
            if e.message().contains("Task is stale") {
                stale = true;
                break;
            }
        }

        app.update();
    }
    assert!(stale);
}

#[test]
fn refetch() {
    let url = "http://127.0.0.1:8080/refetch";
    let mut app = Host::new(table);

    app.trigger(QueryBuilder::default().method(Method::Get).url(url).build());
    app.update();

    let mut index = 0;
    let mut stale_seen = 0;
    loop {
        app.sleep(match index {
            0 => 400,
            _ => 50,
        });

        let result = app.extract(QueryConsumable {
            url: url.to_string(),
            stale_time: Some(200),
            ..Default::default()
        });
        if let Ok(response) = &result {
            assert_eq!(app.store.cache.len(), 1);
            assert_eq!(response.msg, "Should refetch");
            break;
        }

        if let Err(e) = result {
            if e.message().contains("Task is stale") {
                assert_eq!(app.store.stale_queries.iter().len(), 1);
                stale_seen += 1;
                continue;
            }
        }

        index += 1;
        app.update();
    }
    assert_eq!(stale_seen, 1);
    assert!(app.store.cache.len() == 1);
}

#[test]
fn same_query_key_collision_cache_fetch() {
    let url = "http://127.0.0.1:8080/same_query_key_collision_cache_fetch";
    let mut app = Host::new(table);

    app.trigger(
        QueryBuilder::default()
            .method(Method::Get)
            .url(url)
            .query_key("collision_test")
            .build(),
    );

    app.trigger(
        QueryBuilder::default()
            .method(Method::Get)
            .url(url)
            .params(vec![(String::from("param1"), "value1".to_string())])
            .query_key("collision_test")
            .build(),
    );

    app.update();

    assert!(app.store.loading_requests.len() == 1);
}

#[test]
fn same_url_collision_cache_fetch() {
    let url = "http://127.0.0.1:8080/same_url_collision_cache_fetch";
    let mut app = Host::new(table);

    app.trigger(QueryBuilder::default().method(Method::Get).url(url).build());

    app.trigger(
        QueryBuilder::default()
            .method(Method::Get)
            .url(url)
            .params(vec![(String::from("second_request"), "is_discarded".to_string())])
            .build(),
    );

    loop {
        let result = app.extract(QueryConsumable { url: url.to_string(), ..Default::default() });

        if let Ok(response) = result {
            println!("test response {:#?}", response.msg);
            assert_eq!(response.msg, "success");
            break;
        }

        app.update();
    }
}
