use serde_json::Value;

use hedgehog::{
    status_is_success, Endpoint, HttpMethod, PosthogClient, PosthogError, PosthogRequest,
    QueueWorker, QueuedRequest,
};

fn capture(api_key: &str, body: &str) -> QueuedRequest<u32> {
    QueuedRequest::fire(PosthogRequest::CaptureEvent {
        api_key: api_key.to_string(),
        body: Value::String(body.to_string()),
    })
}

#[test]
fn three_captures_batch_into_one_call() {
    // Scenario: three fire-and-forget captures within one flush interval.
    let mut worker: QueueWorker<u32> = QueueWorker::new();
    assert!(worker.offer(capture("abc", "e1")).is_none());
    assert!(worker.offer(capture("abc", "e2")).is_none());
    assert!(worker.offer(capture("abc", "e3")).is_none());

    let calls = worker.flush();
    assert_eq!(calls.len(), 1);
    match &calls[0].request {
        PosthogRequest::CaptureBatch { api_key, events } => {
            assert_eq!(api_key, "abc");
            assert_eq!(events.len(), 3);
            assert_eq!(events[0], Value::String("e1".to_string()));
            assert_eq!(events[1], Value::String("e2".to_string()));
            assert_eq!(events[2], Value::String("e3".to_string()));
        }
        other => panic!("expected a batch call, got {:?}", other),
    }
    assert!(calls[0].response_tx.is_none());
    assert_eq!(calls[0].request.method(), HttpMethod::Post);
    assert_eq!(calls[0].request.endpoint().path(), "batch");

    // The next tick has nothing left to send.
    assert!(worker.flush().is_empty());
}

#[test]
fn batch_takes_key_of_first_event() {
    let mut worker: QueueWorker<u32> = QueueWorker::new();
    worker.offer(capture("first-key", "e1"));
    worker.offer(capture("second-key", "e2"));
    let calls = worker.flush();
    assert_eq!(calls.len(), 1);
    match &calls[0].request {
        PosthogRequest::CaptureBatch { api_key, events } => {
            assert_eq!(api_key, "first-key");
            assert_eq!(events.len(), 2);
        }
        other => panic!("expected a batch call, got {:?}", other),
    }
}

#[test]
fn evaluate_flags_is_dispatched_immediately() {
    // Scenario: a flag evaluation with a waiter bypasses the buffer.
    let mut worker: QueueWorker<u32> = QueueWorker::new();
    let submission = QueuedRequest::call(
        PosthogRequest::EvaluateFeatureFlags { body: Value::Null },
        7u32,
    );
    let now = worker.offer(submission).expect("must dispatch before any tick");
    assert_eq!(now.response_tx, Some(7));
    assert_eq!(now.request.method(), HttpMethod::Post);
    assert_eq!(now.request.endpoint().path(), "decide?v=3");
    assert!(worker.flush().is_empty());
}

#[test]
fn fetch_catalog_maps_to_get_with_key_in_path() {
    // Scenario: a catalog fetch with API key "xyz".
    let client = PosthogClient::new("https://example.test".to_string(), "xyz".to_string());
    let request = client.early_access_request();
    match &request {
        PosthogRequest::GetEarlyAccessFeatures { api_key } => assert_eq!(api_key, "xyz"),
        other => panic!("expected a catalog request, got {:?}", other),
    }
    assert_eq!(request.method(), HttpMethod::Get);
    assert_eq!(
        request.endpoint().path(),
        "api_early_access_features?api_key=xyz"
    );

    // Fire-and-forget submission of a non-capture kind routes now.
    let mut worker: QueueWorker<u32> = QueueWorker::new();
    let now = worker.offer(QueuedRequest::fire(request));
    assert!(now.is_some());
    assert!(now.unwrap().response_tx.is_none());
}

#[test]
fn no_submissions_no_calls() {
    // Scenario: nothing submitted over several flush intervals.
    let mut worker: QueueWorker<u32> = QueueWorker::new();
    assert!(worker.flush().is_empty());
    assert!(worker.flush().is_empty());
    assert!(worker.flush().is_empty());
}

#[test]
fn waiting_capture_is_never_batched() {
    // A capture with a waiter, buffered alongside batchable captures, is
    // dispatched on its own.
    let mut worker: QueueWorker<u32> = QueueWorker::new();
    worker.offer(capture("abc", "e1"));
    let waiting = QueuedRequest {
        request: PosthogRequest::CaptureEvent {
            api_key: "abc".to_string(),
            body: Value::String("with-waiter".to_string()),
        },
        immediate: false,
        response_tx: Some(9u32),
    };
    assert!(worker.offer(waiting).is_none());
    worker.offer(capture("abc", "e2"));

    let calls = worker.flush();
    assert_eq!(calls.len(), 2);
    match &calls[0].request {
        PosthogRequest::CaptureEvent { body, .. } => {
            assert_eq!(body, &Value::String("with-waiter".to_string()));
        }
        other => panic!("expected the waiting capture on its own, got {:?}", other),
    }
    assert_eq!(calls[0].response_tx, Some(9));
    match &calls[1].request {
        PosthogRequest::CaptureBatch { events, .. } => {
            assert_eq!(events.len(), 2);
            assert_eq!(events[0], Value::String("e1".to_string()));
            assert_eq!(events[1], Value::String("e2".to_string()));
        }
        other => panic!("expected the batch of the two plain captures, got {:?}", other),
    }
    assert!(calls[1].response_tx.is_none());
}

#[test]
fn immediate_capture_bypasses_buffer() {
    let mut worker: QueueWorker<u32> = QueueWorker::new();
    worker.offer(capture("abc", "buffered"));
    let immediate = QueuedRequest {
        request: PosthogRequest::CaptureEvent {
            api_key: "abc".to_string(),
            body: Value::String("now".to_string()),
        },
        immediate: true,
        response_tx: None,
    };
    let now = worker.offer(immediate).expect("immediate submissions route now");
    match &now.request {
        PosthogRequest::CaptureEvent { body, .. } => {
            assert_eq!(body, &Value::String("now".to_string()));
        }
        other => panic!("expected the immediate capture, got {:?}", other),
    }
    // The buffered capture is untouched and still flushed on schedule.
    let calls = worker.flush();
    assert_eq!(calls.len(), 1);
    match &calls[0].request {
        PosthogRequest::CaptureBatch { events, .. } => {
            assert_eq!(events, &vec![Value::String("buffered".to_string())]);
        }
        other => panic!("expected the batch, got {:?}", other),
    }
}

#[test]
fn failed_immediate_dispatch_leaves_buffer_alone() {
    // An immediately-dispatched request whose transport fails has no way
    // back into the worker: buffered requests still flush on schedule.
    let mut worker: QueueWorker<u32> = QueueWorker::new();
    worker.offer(capture("abc", "e1"));
    worker.offer(capture("abc", "e2"));
    let now = worker
        .offer(QueuedRequest::call(
            PosthogRequest::EvaluateFeatureFlags { body: Value::Null },
            1u32,
        ))
        .expect("routes now");
    drop(now);  // the transport call fails; its result is simply dropped

    let calls = worker.flush();
    assert_eq!(calls.len(), 1);
    match &calls[0].request {
        PosthogRequest::CaptureBatch { events, .. } => assert_eq!(events.len(), 2),
        other => panic!("expected the batch, got {:?}", other),
    }
}

#[test]
fn waiter_receives_exactly_one_result() {
    let (tx, mut rx) = tokio::sync::oneshot::channel::<Result<Value, String>>();
    let mut worker: QueueWorker<tokio::sync::oneshot::Sender<Result<Value, String>>> =
        QueueWorker::new();
    let now = worker
        .offer(QueuedRequest::call(
            PosthogRequest::EvaluateFeatureFlags { body: Value::Null },
            tx,
        ))
        .expect("routes now");
    assert!(worker.flush().is_empty());

    // Dispatch completes and delivers through the one-shot waiter; sending
    // consumes the sender, so a second delivery is impossible by ownership.
    let waiter = now.response_tx.expect("the waiter travels with the call");
    waiter.send(Ok(Value::Bool(true))).expect("the caller is waiting");
    assert_eq!(rx.try_recv().unwrap(), Ok(Value::Bool(true)));
    assert!(rx.try_recv().is_err());
}

#[test]
fn endpoint_mapping_is_total_over_the_five_kinds() {
    let cases: Vec<(PosthogRequest, HttpMethod, &str)> = vec![
        (
            PosthogRequest::CaptureEvent {
                api_key: "k".to_string(),
                body: Value::Null,
            },
            HttpMethod::Post,
            "capture",
        ),
        (
            PosthogRequest::CaptureBatch {
                api_key: "k".to_string(),
                events: Vec::new(),
            },
            HttpMethod::Post,
            "batch",
        ),
        (
            PosthogRequest::EvaluateFeatureFlags { body: Value::Null },
            HttpMethod::Post,
            "decide?v=3",
        ),
        (
            PosthogRequest::GetEarlyAccessFeatures { api_key: "k".to_string() },
            HttpMethod::Get,
            "api_early_access_features?api_key=k",
        ),
        (
            PosthogRequest::Other {
                method: HttpMethod::Delete,
                endpoint: "custom/path".to_string(),
                json: Value::Null,
            },
            HttpMethod::Delete,
            "custom/path",
        ),
    ];
    for (request, method, path) in cases {
        assert_eq!(request.method(), method);
        assert_eq!(request.endpoint().path(), path);
    }
}

#[test]
fn endpoint_paths_are_exact() {
    assert_eq!(Endpoint::Capture.path(), "capture");
    assert_eq!(Endpoint::Batch.path(), "batch");
    assert_eq!(Endpoint::Decide.path(), "decide?v=3");
    assert_eq!(
        Endpoint::EarlyAccessFeatures { api_key: "abc".to_string() }.path(),
        "api_early_access_features?api_key=abc"
    );
    assert_eq!(
        Endpoint::Other { endpoint: "a/b?c=d".to_string() }.path(),
        "a/b?c=d"
    );
}

#[test]
fn success_statuses_are_the_2xx_range() {
    assert!(!status_is_success(199));
    assert!(status_is_success(200));
    assert!(status_is_success(204));
    assert!(status_is_success(299));
    assert!(!status_is_success(300));
    assert!(!status_is_success(500));
}

#[test]
fn waiter_receives_the_transport_error() {
    let (tx, mut rx) = tokio::sync::oneshot::channel::<Result<Value, PosthogError>>();
    let mut worker: QueueWorker<tokio::sync::oneshot::Sender<Result<Value, PosthogError>>> =
        QueueWorker::new();
    let now = worker
        .offer(QueuedRequest::call(
            PosthogRequest::EvaluateFeatureFlags { body: Value::Null },
            tx,
        ))
        .expect("routes now");
    // The server answers HTTP 500: the transport maps it to HttpError and
    // the waiter receives that error, once.
    assert!(!status_is_success(500));
    let waiter = now.response_tx.unwrap();
    waiter
        .send(Err(PosthogError::HttpError { status: Some(500) }))
        .expect("the caller is waiting");
    assert_eq!(
        rx.try_recv().unwrap(),
        Err(PosthogError::HttpError { status: Some(500) })
    );
    assert!(rx.try_recv().is_err());
}
