use request_dispatcher::dispatch::{conclude, normalize, prepare};
use request_dispatcher::payload::{
    DispatchError, Header, NormalizedBody, RequestPayload, ResponsePayload, TransportEvent,
};

fn payload(method: &str, headers: Option<Vec<(&str, &str)>>, body: Option<&str>) -> RequestPayload {
    RequestPayload {
        method: method.to_string(),
        url: "https://example.com/resource".to_string(),
        headers: headers.map(|hs| {
            hs.into_iter()
                .map(|(n, v)| Header { name: n.to_string(), value: v.to_string() })
                .collect()
        }),
        body: body.map(|b| b.to_string()),
    }
}

#[test]
fn recognized_method_builds_outbound() {
    for m in ["GET", "POST", "PUT", "DELETE", "PATCH", "HEAD", "OPTIONS"] {
        let out = prepare(payload(m, None, None)).expect("recognized verb must be accepted");
        assert_eq!(out.method, m);
        assert_eq!(out.url, "https://example.com/resource");
        assert!(out.headers.is_empty());
        assert_eq!(out.body, None);
    }
}

#[test]
fn extension_method_is_recognized() {
    // Recognition follows the transport's method grammar: any nonempty run of
    // token characters is accepted, lower case and custom verbs included.
    for m in ["get", "PURGE", "M-SEARCH", "my.verb_2!"] {
        let out = prepare(payload(m, None, None)).expect("token string must be accepted");
        assert_eq!(out.method, m);
    }
}

#[test]
fn unrecognized_method_rejected_before_dispatch() {
    for m in ["", "GE T", "GET/", "G\u{00e9}T", "na\u{00ef}ve", "A,B", "tab\tseparated"] {
        match prepare(payload(m, None, None)) {
            Err(DispatchError::InvalidMethod(s)) => assert_eq!(s, m),
            other => panic!("expected InvalidMethod for {:?}, got {:?}", m, other),
        }
    }
}

#[test]
fn headers_forwarded_exactly() {
    let hs = vec![("Accept", "application/json"), ("X-Custom", "a, b"), ("accept", "text/plain")];
    let out = prepare(payload("GET", Some(hs.clone()), None)).expect("GET is recognized");
    assert_eq!(out.headers.len(), hs.len());
    for (supplied, sent) in hs.iter().zip(out.headers.iter()) {
        assert_eq!(sent.name, supplied.0);
        assert_eq!(sent.value, supplied.1);
    }
}

#[test]
fn absent_body_stays_absent() {
    let out = prepare(payload("POST", None, None)).expect("POST is recognized");
    assert_eq!(out.body, None);
}

#[test]
fn present_body_forwarded_verbatim() {
    let out = prepare(payload("POST", None, Some("{\"k\": 1}"))).expect("POST is recognized");
    assert_eq!(out.body.as_deref(), Some("{\"k\": 1}"));
}

#[test]
fn json_body_parsed() {
    let r = normalize(200, "{\"a\":1}".to_string());
    assert_eq!(r.status, 200);
    match &r.body {
        NormalizedBody::Json(text) => {
            let got: serde_json::Value =
                serde_json::from_str(text).expect("kept text must be a JSON document");
            let mut m = serde_json::Map::new();
            m.insert("a".to_string(), serde_json::Value::from(1));
            assert_eq!(got, serde_json::Value::Object(m));
        }
        other => panic!("expected parsed JSON, got {:?}", other),
    }
}

#[test]
fn non_json_body_wrapped_raw() {
    let r = normalize(200, "not json".to_string());
    assert!(r.body.is_raw_wrapped());
    assert_eq!(r.body.text().as_str(), "not json");
}

#[test]
fn empty_text_wrapped_raw() {
    let r = normalize(204, "".to_string());
    assert!(r.body.is_raw_wrapped());
    assert_eq!(r.body.text().as_str(), "");
}

#[test]
fn near_json_text_wrapped_raw() {
    for t in ["{\"a\":1", "[1, 2,]", "{'a': 1}", "nulll", "\u{0000}"] {
        let r = normalize(500, t.to_string());
        assert!(r.body.is_raw_wrapped(), "{:?} is not a JSON document", t);
        assert_eq!(r.body.text().as_str(), t);
    }
}

#[test]
fn scalar_json_text_kept() {
    // A complete JSON document need not be an object.
    for t in ["null", "true", "0", "\"x\"", "[1,2]", "  {\"a\": [1]} "] {
        let r = normalize(200, t.to_string());
        assert!(!r.body.is_raw_wrapped(), "{:?} is a JSON document", t);
        assert_eq!(r.body.text().as_str(), t);
    }
}

#[test]
fn dispatch_is_idempotent() {
    let p = payload("PUT", Some(vec![("Accept", "*/*")]), Some("payload"));
    let out1 = prepare(p.clone()).expect("PUT is recognized");
    let out2 = prepare(p).expect("PUT is recognized");
    assert_eq!(out1, out2);

    for text in ["{\"a\":1}", "not json", ""] {
        let r1: ResponsePayload = normalize(418, text.to_string());
        let r2: ResponsePayload = normalize(418, text.to_string());
        assert_eq!(r1, r2);
    }

    for event in [
        TransportEvent::Response(200, "{\"a\":1}".to_string()),
        TransportEvent::SendFailed("connection refused".to_string()),
        TransportEvent::ReadFailed("connection dropped".to_string()),
    ] {
        assert_eq!(conclude(event.clone()), conclude(event));
    }
}

#[test]
fn complete_answer_concluded_without_failure() {
    let r = conclude(TransportEvent::Response(201, "{\"a\":1}".to_string()))
        .expect("a complete answer has no failure path");
    assert_eq!(r.status, 201);
    assert!(!r.body.is_raw_wrapped());
    assert_eq!(r.body.text().as_str(), "{\"a\":1}");
}

#[test]
fn failed_send_concluded_as_transport_error() {
    match conclude(TransportEvent::SendFailed("dns error".to_string())) {
        Err(DispatchError::TransportError(m)) => assert_eq!(m, "dns error"),
        other => panic!("expected TransportError, got {:?}", other),
    }
}

#[test]
fn failed_drain_concluded_as_body_read_error() {
    match conclude(TransportEvent::ReadFailed("connection dropped".to_string())) {
        Err(DispatchError::BodyReadError(m)) => assert_eq!(m, "connection dropped"),
        other => panic!("expected BodyReadError, got {:?}", other),
    }
}

#[test]
fn error_kinds_stay_distinguishable() {
    let invalid = match prepare(payload("", None, None)) {
        Err(e) => e,
        Ok(_) => panic!("empty method must be rejected"),
    };
    assert_eq!(invalid.kind_label(), "invalid method");
    assert_eq!(invalid.detail().as_str(), "");

    let transport = DispatchError::TransportError("connection refused".to_string());
    assert_eq!(transport.kind_label(), "transport failure");
    assert_eq!(transport.detail().as_str(), "connection refused");

    let read = DispatchError::BodyReadError("connection dropped mid-transfer".to_string());
    assert_eq!(read.kind_label(), "body read failure");
    assert_eq!(read.detail().as_str(), "connection dropped mid-transfer");

    assert_ne!(invalid, transport);
    assert_ne!(transport, read);
}
