use rest_bridge::bridge::RequestBridge;
use rest_bridge::bridge::WarmupTask;
use rest_bridge::completion::Completion;
use rest_bridge::headers::MarshalError;
use rest_bridge::verb::Verb;

#[test]
fn get_with_empty_headers_is_prepared() {
    let pr = RequestBridge::prepare_request("http://host/path", "GET", "{}").unwrap();
    assert_eq!(pr.url, "http://host/path");
    assert_eq!(pr.verb, Verb::Get);
    assert_eq!(pr.headers.len(), 0);
}

#[test]
fn post_carries_the_marshalled_header() {
    let pr = RequestBridge::prepare_request("http://host/path", "POST", "{\"X-Test\":\"1\"}")
        .unwrap();
    assert_eq!(pr.verb, Verb::Post);
    assert_eq!(pr.headers.len(), 1);
    assert_eq!(pr.headers.name_at(0), "X-Test");
    assert_eq!(pr.headers.value_at(0), "1");
}

#[test]
fn unknown_method_is_dispatched_as_get() {
    let pr = RequestBridge::prepare_request("http://host/path", "FROB", "{}").unwrap();
    assert_eq!(pr.verb, Verb::Get);
}

#[test]
fn non_string_header_value_rejects_with_marshal_error() {
    let e = RequestBridge::prepare_request("http://host/path", "GET", "{\"X\":1}").unwrap_err();
    assert_eq!(e, MarshalError::NotStringObject);
    assert!(!e.message().is_empty());
}

#[test]
fn a_body_resolves_the_completion() {
    let mut c: Completion<String> = Completion::new();
    assert!(RequestBridge::settle(&mut c, Ok("ok".to_string())));
    match &c {
        Completion::Resolved(body) => assert_eq!(body, "ok"),
        _ => panic!("body did not resolve the completion"),
    }
    assert!(!RequestBridge::settle(&mut c, Ok("again".to_string())));
    match &c {
        Completion::Resolved(body) => assert_eq!(body, "ok"),
        _ => panic!("settled completion changed"),
    }
}

#[test]
fn a_transport_error_rejects_the_completion() {
    let mut c: Completion<String> = Completion::new();
    assert!(RequestBridge::settle(&mut c, Err("connection refused".to_string())));
    match &c {
        Completion::Rejected(m) => assert_eq!(m, "connection refused"),
        _ => panic!("error did not reject the completion"),
    }
    assert!(!RequestBridge::settle(&mut c, Err("late".to_string())));
}

#[test]
fn warmup_resolves_with_true() {
    let mut c: Completion<bool> = Completion::new();
    assert!(WarmupTask::settle(&mut c));
    match c {
        Completion::Resolved(b) => assert!(b),
        _ => panic!("warmup completion did not resolve"),
    }
}
