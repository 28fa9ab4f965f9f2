use std::task::Poll;

use tower_client::{CallState, Event, InvokeError, Readiness, Svc};
use tower_test::mock;

type Error = Box<dyn std::error::Error + Send + Sync>;

type Mock = mock::Spawn<mock::Mock<String, String>>;
type Handle = mock::Handle<String, String>;

fn new_mock() -> (Svc<Mock, String>, Handle) {
    let (svc, handle) = mock::pair();
    (Svc::new(mock::Spawn::new(svc)), handle)
}

fn poll_transport(svc: &mut Svc<Mock, String>) -> Readiness {
    match svc.get_mut().poll_ready::<String>() {
        Poll::Ready(Ok(())) => Readiness::Ready,
        _ => Readiness::NotReady,
    }
}

#[test]
fn lib_hello() {
    let (mut svc, mut handle) = new_mock();
    let req = String::from("hello, ");

    // Sending req
    let transport = poll_transport(&mut svc);
    assert_eq!(transport, Readiness::Ready);
    let dispatch = match svc.call::<Error>(req, 0, transport) {
        Ok(dispatch) => dispatch,
        Err(e) => panic!("the call was rejected: {:?}", e),
    };
    assert_eq!(dispatch.pending.started_at, 0);
    assert_eq!(dispatch.pending.deadline, 500_000);
    let mut resp = tokio_test::task::spawn(svc.get_mut().call(dispatch.request));
    assert!(resp.poll().is_pending());

    // on the side of the "server"...
    // polling readiness of handle
    let pair = match handle.poll_request() {
        Poll::Ready(pair) => pair,
        Poll::Pending => panic!("no request reached the transport"),
    };
    // accepted req
    let (req, send) = pair.unwrap();
    assert_eq!(req, String::from("hello, "));
    send.send_response(String::from("world!"));

    let event: Event<String, Error> = match resp.poll() {
        Poll::Ready(Ok(response)) => Event::Response { at: 3, response },
        Poll::Ready(Err(error)) => Event::Failure { at: 3, error },
        Poll::Pending => Event::Tick { at: 3 },
    };
    match dispatch.pending.resolve(event) {
        CallState::Completed(resp) => assert_eq!(resp, String::from("world!")),
        other => panic!("the call did not complete: {:?}", other),
    }
    assert_eq!(svc.tokens_available(), 99);
}

#[test]
fn main_hello() {
    let (svc, _handle) = mock::pair::<http::Request<Vec<u8>>, http::Response<Vec<u8>>>();
    let mut svc: Svc<_, http::Request<Vec<u8>>> = Svc::new(mock::Spawn::new(svc));
    let ready = matches!(
        svc.get_mut().poll_ready::<http::Request<Vec<u8>>>(),
        Poll::Ready(Ok(()))
    );
    assert!(ready);

    let uri: http::Uri = "http://httpbin.org/ip".parse().unwrap();
    let req = http::Request::builder()
        .method(http::Method::GET)
        .uri(uri)
        .body(Vec::new())
        .unwrap();

    let dispatch = svc.call::<Error>(req, 0, Readiness::Ready).unwrap();
    assert_eq!(dispatch.request.uri().path(), "/ip");
    assert_eq!(dispatch.request.method(), http::Method::GET);
    let _response = svc.get_mut().call(dispatch.request);
}

#[test]
fn hello_when_the_mock_is_not_ready() {
    let (mut svc, mut handle) = new_mock();
    handle.allow(0);
    let transport = poll_transport(&mut svc);
    assert_eq!(transport, Readiness::NotReady);
    let out = svc.call::<Error>(String::from("hello, "), 0, transport);
    assert!(matches!(out, Err(InvokeError::Shed)));
    // nothing reached the "server", and no token was spent
    assert!(handle.poll_request().is_pending());
    assert_eq!(svc.tokens_available(), 100);
}

#[test]
fn hello_when_the_mock_fails() {
    let (mut svc, mut handle) = new_mock();
    let transport = poll_transport(&mut svc);
    let dispatch = svc.call::<Error>(String::from("hello, "), 7, transport).unwrap();
    let mut resp = tokio_test::task::spawn(svc.get_mut().call(dispatch.request));
    let (_req, send) = match handle.poll_request() {
        Poll::Ready(Some(pair)) => pair,
        _ => panic!("no request reached the transport"),
    };
    send.send_error("boom");
    let event: Event<String, Error> = match resp.poll() {
        Poll::Ready(Ok(response)) => Event::Response { at: 9, response },
        Poll::Ready(Err(error)) => Event::Failure { at: 9, error },
        Poll::Pending => Event::Tick { at: 9 },
    };
    match dispatch.pending.resolve(event) {
        CallState::Failed(InvokeError::Inner(e)) => assert_eq!(e.to_string(), "boom"),
        other => panic!("the transport's error was not passed on: {:?}", other),
    }
}
