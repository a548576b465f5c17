use actix_request_hook::body::{get_payload, repackage};
use actix_request_hook::ident::RequestId;
use actix_request_hook::lifecycle::{Admission, HandlerOutcome};
use actix_request_hook::observer::{Observer, RequestEndData, RequestStartData};
use actix_request_hook::RequestHook;
use actix_web::dev::Payload;
use actix_web::http::StatusCode;
use actix_web::test::TestRequest;
use actix_web::web::{Bytes, BytesMut};
use actix_web::HttpMessage;
use futures_util::task::noop_waker;
use futures_util::Stream;
use std::cell::RefCell;
use std::pin::Pin;
use std::rc::Rc;
use std::task::{Context, Poll};
use uuid::Uuid;

/// Reads a payload to its end. Everything is buffered, so nothing is pending.
fn read_chunks(payload: &mut Payload) -> Vec<Bytes> {
    let waker = noop_waker();
    let mut cx = Context::from_waker(&waker);
    let mut chunks = Vec::new();
    loop {
        match Pin::new(&mut *payload).poll_next(&mut cx) {
            Poll::Ready(Some(chunk)) => chunks.push(chunk.unwrap()),
            Poll::Ready(None) => return chunks,
            Poll::Pending => panic!("a buffered payload does not wait"),
        }
    }
}

fn json_size_1122() -> serde_json::Value {
    let mut object = serde_json::Map::new();
    object.insert("size".to_string(), serde_json::Value::from(1122u64));
    serde_json::Value::Object(object)
}

#[test]
fn test_receives_start_end_request() {
    struct MyObserver {
        sent_messages: RefCell<Vec<String>>,
    }

    impl Observer for MyObserver {
        fn on_request_started(&self, data: RequestStartData) {
            let body_value = String::from_utf8_lossy(&data.body);
            self.sent_messages.borrow_mut().push(format!(
                "started {} - json `{}`",
                Uuid::from_u128(data.request_id.as_u128()),
                body_value
            ))
        }

        fn on_request_ended(&self, data: RequestEndData) {
            self.sent_messages.borrow_mut().push(format!(
                "ended {}",
                Uuid::from_u128(data.request_id.as_u128())
            ))
        }
    }

    let request_id = RequestId::new_v4();
    let my_observer = MyObserver {
        sent_messages: RefCell::new(vec![]),
    };
    let mut service_req = TestRequest::post()
        .set_json(json_size_1122())
        .insert_header(("Content-type", "application/json"))
        .to_srv_request();

    // this is for test only, beware that once body is consumed it will be unavailable later. repack it.
    let mut payload = service_req.take_payload();
    let mut body = BytesMut::new();
    for chunk in read_chunks(&mut payload) {
        body.extend_from_slice(&chunk)
    }

    my_observer.on_request_started(RequestStartData {
        req: &service_req,
        request_id,
        uri: "".to_string(),
        method: "".to_string(),
        body,
    });
    my_observer.on_request_ended(RequestEndData {
        request_id,
        elapsed: Default::default(),
        uri: "".to_string(),
        method: "".to_string(),
        status: Default::default(),
    });

    let request_id = Uuid::from_u128(request_id.as_u128());
    assert_eq!(
        my_observer.sent_messages.into_inner(),
        vec![
            format!("started {} - json `{}`", request_id, "{\"size\":1122}"),
            format!("ended {}", request_id)
        ]
    )
}

struct Recorder {
    started: RefCell<Vec<(u128, String, String, Vec<u8>, String)>>,
    ended: RefCell<Vec<(u128, String, String, StatusCode)>>,
}

impl Recorder {
    fn new() -> Self {
        Recorder { started: RefCell::new(vec![]), ended: RefCell::new(vec![]) }
    }
}

impl Observer for Recorder {
    fn on_request_started(&self, data: RequestStartData) {
        self.started.borrow_mut().push((
            data.request_id.as_u128(),
            data.uri,
            data.method,
            data.body.to_vec(),
            data.req.path().to_string(),
        ));
    }

    fn on_request_ended(&self, data: RequestEndData) {
        self.ended.borrow_mut().push((
            data.request_id.as_u128(),
            data.uri,
            data.method,
            data.status,
        ));
    }
}

#[test]
fn json_body_reaches_observer_and_handler() {
    let recorder = Rc::new(Recorder::new());
    let srv = RequestHook::new().register(recorder.clone()).new_transform(());
    let mut req = TestRequest::post()
        .uri("/items?x=1")
        .set_json(json_size_1122())
        .to_srv_request();

    let admission = srv.call(req.path(), req.uri().to_string(), req.method().to_string());
    let mut state = match admission {
        Admission::Observed(state) => state,
        Admission::Passthrough => panic!("not excluded"),
    };
    let mut inbound = req.take_payload();
    for chunk in read_chunks(&mut inbound) {
        state.push_chunk(&chunk);
    }
    let dispatch = state.start(&req);

    {
        let started = recorder.started.borrow();
        assert_eq!(started.len(), 1);
        assert_eq!(String::from_utf8(started[0].3.clone()).unwrap(), "{\"size\":1122}");
        assert_eq!(started[0].1, "/items?x=1");
        assert_eq!(started[0].2, "POST");
        assert_eq!(started[0].4, "/items");
        assert!(recorder.ended.borrow().is_empty());
    }

    // the handler reads the body as if nobody had read it before
    req.set_payload(Payload::from(dispatch.payload));
    let mut for_handler = req.take_payload();
    let chunks = read_chunks(&mut for_handler);
    let whole: Vec<u8> = chunks.iter().flat_map(|chunk| chunk.to_vec()).collect();
    assert_eq!(whole, b"{\"size\":1122}".to_vec());
    let parsed: serde_json::Value = serde_json::from_slice(&whole).unwrap();
    assert_eq!(parsed["size"].as_u64(), Some(1122));

    let outcome: HandlerOutcome<&str, ()> =
        HandlerOutcome::Responded { response: "created", status: StatusCode::CREATED };
    let done = dispatch.handling.complete(outcome);
    assert_eq!(done.outcome, Ok("created"));

    let started = recorder.started.borrow();
    let ended = recorder.ended.borrow();
    assert_eq!(ended.len(), 1);
    assert_eq!(ended[0].0, started[0].0);
    assert_eq!(ended[0].1, "/items?x=1");
    assert_eq!(ended[0].2, "POST");
    assert_eq!(ended[0].3, StatusCode::CREATED);
}

#[test]
fn chunks_are_joined_in_arrival_order() {
    let recorder = Rc::new(Recorder::new());
    let srv = RequestHook::new().register(recorder.clone()).new_transform(());
    let req = TestRequest::with_uri("/upload").to_srv_request();
    let mut state = match srv.call(req.path(), req.uri().to_string(), req.method().to_string()) {
        Admission::Observed(state) => state,
        Admission::Passthrough => panic!("not excluded"),
    };
    state.push_chunk(b"ab");
    state.push_chunk(b"");
    state.push_chunk(b"cde");
    state.push_chunk(&[0u8, 255u8]);
    let dispatch = state.start(&req);
    let expected = vec![b'a', b'b', b'c', b'd', b'e', 0u8, 255u8];
    assert_eq!(recorder.started.borrow()[0].3, expected);

    let mut payload = Payload::from(dispatch.payload);
    let chunks = read_chunks(&mut payload);
    assert_eq!(chunks.len(), 1);
    assert_eq!(chunks[0].to_vec(), expected);
}

#[test]
fn empty_body_is_an_empty_payload() {
    let recorder = Rc::new(Recorder::new());
    let srv = RequestHook::new().register(recorder.clone()).new_transform(());
    let req = TestRequest::with_uri("/").to_srv_request();
    let state = match srv.call(req.path(), req.uri().to_string(), req.method().to_string()) {
        Admission::Observed(state) => state,
        Admission::Passthrough => panic!("not excluded"),
    };
    let dispatch = state.start(&req);
    assert_eq!(recorder.started.borrow()[0].3, Vec::<u8>::new());
    let mut payload = Payload::from(dispatch.payload);
    let whole: Vec<u8> =
        read_chunks(&mut payload).iter().flat_map(|chunk| chunk.to_vec()).collect();
    assert!(whole.is_empty());
}

#[test]
fn payload_yields_the_bytes_once_and_ends() {
    let mut payload = Payload::from(get_payload(Bytes::from_static(b"hello world")));
    let chunks = read_chunks(&mut payload);
    assert_eq!(chunks, vec![Bytes::from_static(b"hello world")]);
    assert!(read_chunks(&mut payload).is_empty());
}

#[test]
fn repackaged_payload_is_complete() {
    let mut body = BytesMut::new();
    body.extend_from_slice(b"first ");
    body.extend_from_slice(b"second");
    let both = repackage(body);
    assert_eq!(&both.observed[..], b"first second");
    // every poll is ready: the bytes, then the end, and the end again
    let mut payload: Payload = Payload::from(both.payload);
    let waker = noop_waker();
    let mut cx = Context::from_waker(&waker);
    match Pin::new(&mut payload).poll_next(&mut cx) {
        Poll::Ready(Some(Ok(chunk))) => assert_eq!(&chunk[..], b"first second"),
        _ => panic!("the bytes are there"),
    }
    assert!(matches!(Pin::new(&mut payload).poll_next(&mut cx), Poll::Ready(None)));
    assert!(matches!(Pin::new(&mut payload).poll_next(&mut cx), Poll::Ready(None)));
}

#[test]
fn every_observer_gets_the_same_data() {
    let first = Rc::new(Recorder::new());
    let second = Rc::new(Recorder::new());
    let srv = RequestHook::new()
        .register(first.clone())
        .register(second.clone())
        .new_transform(());
    let req = TestRequest::put().uri("/same").to_srv_request();
    let mut state = match srv.call(req.path(), req.uri().to_string(), req.method().to_string()) {
        Admission::Observed(state) => state,
        Admission::Passthrough => panic!("not excluded"),
    };
    state.push_chunk(b"payload");
    let dispatch = state.start(&req);
    let outcome: HandlerOutcome<(), ()> =
        HandlerOutcome::Responded { response: (), status: StatusCode::NO_CONTENT };
    let done = dispatch.handling.complete(outcome);
    assert!(done.outcome.is_ok());

    assert_eq!(first.started.borrow().len(), 1);
    assert_eq!(first.ended.borrow().len(), 1);
    assert_eq!(*first.started.borrow(), *second.started.borrow());
    assert_eq!(*first.ended.borrow(), *second.ended.borrow());
    assert_eq!(first.started.borrow()[0].0, first.ended.borrow()[0].0);
    assert_eq!(first.ended.borrow()[0].3, StatusCode::NO_CONTENT);
}

#[test]
fn failed_body_read_tells_nobody() {
    let recorder = Rc::new(Recorder::new());
    let srv = RequestHook::new().register(recorder.clone()).new_transform(());
    let req = TestRequest::post().uri("/broken").to_srv_request();
    let mut state = match srv.call(req.path(), req.uri().to_string(), req.method().to_string()) {
        Admission::Observed(state) => state,
        Admission::Passthrough => panic!("not excluded"),
    };
    state.push_chunk(b"partial");
    let error = state.abort(actix_web::error::PayloadError::Overflow);
    assert!(matches!(error.cause, actix_web::error::PayloadError::Overflow));
    assert!(recorder.started.borrow().is_empty());
    assert!(recorder.ended.borrow().is_empty());
}

#[test]
fn elapsed_is_the_time_given_or_read() {
    struct Times {
        seen: RefCell<Vec<std::time::Duration>>,
    }
    impl Observer for Times {
        fn on_request_started(&self, _data: RequestStartData) {}
        fn on_request_ended(&self, data: RequestEndData) {
            self.seen.borrow_mut().push(data.elapsed);
        }
    }
    let times = Rc::new(Times { seen: RefCell::new(vec![]) });
    let srv = RequestHook::new().register(times.clone()).new_transform(());
    let req = TestRequest::with_uri("/t").to_srv_request();

    let state = srv.observe(
        RequestId::new_v4(),
        std::time::Instant::now(),
        "/t".to_string(),
        "GET".to_string(),
    );
    let dispatch = state.start(&req);
    let outcome: HandlerOutcome<(), ()> =
        HandlerOutcome::Responded { response: (), status: StatusCode::OK };
    let given = std::time::Duration::from_millis(1500);
    let done = dispatch.handling.complete_after(outcome, given);
    assert_eq!(done.elapsed, given);
    assert_eq!(*times.seen.borrow(), vec![given]);

    let started_at = std::time::Instant::now();
    let state = srv.observe(RequestId::new_v4(), started_at, "/t".to_string(), "GET".to_string());
    let dispatch = state.start(&req);
    let outcome: HandlerOutcome<(), ()> =
        HandlerOutcome::Responded { response: (), status: StatusCode::OK };
    let done = dispatch.handling.complete(outcome);
    assert!(done.elapsed <= started_at.elapsed());
    assert_eq!(times.seen.borrow()[1], done.elapsed);
}
