use kbs2::protocol::{
    frame, split_frame, FailureKind, Request, RequestBody, Response, PROTOCOL_VERSION,
};

#[test]
fn protocol_version_is_one() {
    assert_eq!(PROTOCOL_VERSION, 1);
}

#[test]
fn requests_have_their_wire_form() {
    let cases = vec![
        (
            RequestBody::UnwrapKey("pub".into(), "/key \"file\"".into(), "pass".into()),
            "{\"protocol\":1,\"body\":{\"type\":\"UnwrapKey\",\"body\":[\"pub\",\"/key \\\"file\\\"\",\"pass\"]}}",
        ),
        (
            RequestBody::QueryUnwrappedKey("pub".into()),
            "{\"protocol\":1,\"body\":{\"type\":\"QueryUnwrappedKey\",\"body\":\"pub\"}}",
        ),
        (
            RequestBody::GetUnwrappedKey("pub".into()),
            "{\"protocol\":1,\"body\":{\"type\":\"GetUnwrappedKey\",\"body\":\"pub\"}}",
        ),
        (RequestBody::FlushKeys, "{\"protocol\":1,\"body\":{\"type\":\"FlushKeys\"}}"),
        (RequestBody::Quit, "{\"protocol\":1,\"body\":{\"type\":\"Quit\"}}"),
    ];
    for (body, text) in cases {
        let request = Request { protocol: 1, body };
        assert_eq!(request.to_json(), text);
        assert_eq!(Request::from_json(text).unwrap(), request);
    }
}

#[test]
fn responses_have_their_wire_form() {
    let cases = vec![
        (Response::Success("OK".into()), "{\"type\":\"Success\",\"body\":\"OK\"}"),
        (
            Response::Failure(FailureKind::Auth),
            "{\"type\":\"Failure\",\"body\":{\"type\":\"Auth\"}}",
        ),
        (
            Response::Failure(FailureKind::Io("gone".into())),
            "{\"type\":\"Failure\",\"body\":{\"type\":\"Io\",\"body\":\"gone\"}}",
        ),
        (
            Response::Failure(FailureKind::Malformed("bad\nline".into())),
            "{\"type\":\"Failure\",\"body\":{\"type\":\"Malformed\",\"body\":\"bad\\nline\"}}",
        ),
        (
            Response::Failure(FailureKind::Unwrap("no".into())),
            "{\"type\":\"Failure\",\"body\":{\"type\":\"Unwrap\",\"body\":\"no\"}}",
        ),
        (
            Response::Failure(FailureKind::VersionMismatch(4294967295)),
            "{\"type\":\"Failure\",\"body\":{\"type\":\"VersionMismatch\",\"body\":4294967295}}",
        ),
        (
            Response::Failure(FailureKind::Query),
            "{\"type\":\"Failure\",\"body\":{\"type\":\"Query\"}}",
        ),
    ];
    for (response, text) in cases {
        assert_eq!(response.to_json(), text);
        assert_eq!(Response::from_json(text).unwrap(), response);
    }
}

#[test]
fn unit_payloads_may_be_null() {
    assert_eq!(
        Request::from_json("{\"protocol\":7,\"body\":{\"type\":\"Quit\",\"body\":null}}").unwrap(),
        Request { protocol: 7, body: RequestBody::Quit }
    );
    assert_eq!(
        Response::from_json("{\"type\":\"Failure\",\"body\":{\"type\":\"Query\",\"body\":null}}")
            .unwrap(),
        Response::Failure(FailureKind::Query)
    );
}

#[test]
fn malformed_requests_say_what_is_wrong() {
    let cases = vec![
        ("{}", "malformed request: no protocol"),
        ("{\"protocol\":\"1\"}", "malformed request: no protocol"),
        ("{\"protocol\":4294967296,\"body\":{\"type\":\"Quit\"}}", "malformed request: protocol out of range"),
        ("{\"protocol\":1}", "malformed request: no body type"),
        ("{\"protocol\":1,\"body\":{\"type\":\"Nope\"}}", "malformed request: unknown body type: Nope"),
        (
            "{\"protocol\":1,\"body\":{\"type\":\"UnwrapKey\",\"body\":[\"a\",\"b\"]}}",
            "malformed request: payload of UnwrapKey",
        ),
        (
            "{\"protocol\":1,\"body\":{\"type\":\"QueryUnwrappedKey\"}}",
            "malformed request: payload of QueryUnwrappedKey",
        ),
        (
            "{\"protocol\":1,\"body\":{\"type\":\"GetUnwrappedKey\",\"body\":3}}",
            "malformed request: payload of GetUnwrappedKey",
        ),
    ];
    for (text, message) in cases {
        assert_eq!(Request::from_json(text).unwrap_err(), message);
    }
    assert!(Request::from_json("{\"protocol\":1").is_err());
}

#[test]
fn malformed_responses_say_what_is_wrong() {
    let cases = vec![
        ("{}", "malformed response: no type"),
        ("{\"type\":\"Maybe\"}", "malformed response: unknown type: Maybe"),
        ("{\"type\":\"Success\"}", "malformed response: payload of Success"),
        ("{\"type\":\"Failure\"}", "malformed response: no failure type"),
        (
            "{\"type\":\"Failure\",\"body\":{\"type\":\"VersionMismatch\",\"body\":\"1\"}}",
            "malformed response: payload of VersionMismatch",
        ),
        (
            "{\"type\":\"Failure\",\"body\":{\"type\":\"VersionMismatch\",\"body\":4294967296}}",
            "malformed response: payload of VersionMismatch",
        ),
        (
            "{\"type\":\"Failure\",\"body\":{\"type\":\"Io\"}}",
            "malformed response: payload of failure",
        ),
        (
            "{\"type\":\"Failure\",\"body\":{\"type\":\"Other\",\"body\":\"x\"}}",
            "malformed response: unknown failure type: Other",
        ),
    ];
    for (text, message) in cases {
        assert_eq!(Response::from_json(text).unwrap_err(), message);
    }
    assert!(Response::from_json("nonsense").is_err());
}

#[test]
fn a_frame_ends_at_the_first_line_feed() {
    assert_eq!(split_frame(&b"".to_vec()), None);
    assert_eq!(split_frame(&b"no end".to_vec()), None);
    assert_eq!(split_frame(&b"\n".to_vec()), Some((vec![], vec![])));
    assert_eq!(
        split_frame(&b"one\ntwo\nthree".to_vec()),
        Some((b"one".to_vec(), b"two\nthree".to_vec()))
    );
    assert_eq!(split_frame(&b"one\n".to_vec()), Some((b"one".to_vec(), vec![])));
    assert_eq!(frame("{\"type\":\"Quit\"}"), "{\"type\":\"Quit\"}\n");
    assert_eq!(frame(""), "\n");
}

#[test]
fn messages_are_made_of_their_parts() {
    let s = |t: &str| Some(String::from(t));
    assert_eq!(
        RequestBody::of_parts(s("UnwrapKey"), s("a"), s("b"), s("c")).unwrap(),
        RequestBody::UnwrapKey("a".into(), "b".into(), "c".into())
    );
    assert_eq!(
        RequestBody::of_parts(s("QueryUnwrappedKey"), s("a"), None, None).unwrap(),
        RequestBody::QueryUnwrappedKey("a".into())
    );
    assert_eq!(
        RequestBody::of_parts(s("GetUnwrappedKey"), s("a"), s("b"), None).unwrap(),
        RequestBody::GetUnwrappedKey("a".into())
    );
    assert_eq!(RequestBody::of_parts(s("FlushKeys"), None, None, None).unwrap(), RequestBody::FlushKeys);
    assert_eq!(RequestBody::of_parts(s("Quit"), s("a"), None, None).unwrap(), RequestBody::Quit);
    assert_eq!(
        RequestBody::of_parts(None, s("a"), None, None).unwrap_err(),
        "malformed request: no body type"
    );
    assert_eq!(
        RequestBody::of_parts(s("UnwrapKey"), s("a"), None, s("c")).unwrap_err(),
        "malformed request: payload of UnwrapKey"
    );
    assert_eq!(
        RequestBody::of_parts(s("Other"), None, None, None).unwrap_err(),
        "malformed request: unknown body type: Other"
    );

    assert_eq!(
        Request::of_parts(None, Some(4294967295), Ok(RequestBody::Quit)).unwrap(),
        Request { protocol: 4294967295, body: RequestBody::Quit }
    );
    assert_eq!(Request::of_parts(s("bad"), None, Err("body".into())).unwrap_err(), "bad");
    assert_eq!(
        Request::of_parts(None, None, Ok(RequestBody::Quit)).unwrap_err(),
        "malformed request: no protocol"
    );
    assert_eq!(
        Request::of_parts(None, Some(4294967296), Ok(RequestBody::Quit)).unwrap_err(),
        "malformed request: protocol out of range"
    );
    assert_eq!(Request::of_parts(None, Some(1), Err("body".into())).unwrap_err(), "body");

    assert_eq!(FailureKind::of_parts(s("Auth"), s("x"), Some(1)).unwrap(), FailureKind::Auth);
    assert_eq!(FailureKind::of_parts(s("Query"), None, None).unwrap(), FailureKind::Query);
    assert_eq!(
        FailureKind::of_parts(s("VersionMismatch"), s("x"), Some(7)).unwrap(),
        FailureKind::VersionMismatch(7)
    );
    assert_eq!(FailureKind::of_parts(s("Io"), s("x"), None).unwrap(), FailureKind::Io("x".into()));
    assert_eq!(
        FailureKind::of_parts(s("Malformed"), s("x"), None).unwrap(),
        FailureKind::Malformed("x".into())
    );
    assert_eq!(
        FailureKind::of_parts(s("Unwrap"), s("x"), Some(1)).unwrap(),
        FailureKind::Unwrap("x".into())
    );
    assert_eq!(
        FailureKind::of_parts(None, s("x"), Some(1)).unwrap_err(),
        "malformed response: no failure type"
    );
    assert_eq!(
        FailureKind::of_parts(s("VersionMismatch"), s("x"), None).unwrap_err(),
        "malformed response: payload of VersionMismatch"
    );
    assert_eq!(
        FailureKind::of_parts(s("Unwrap"), None, Some(1)).unwrap_err(),
        "malformed response: payload of failure"
    );
    assert_eq!(
        FailureKind::of_parts(s("Other"), s("x"), None).unwrap_err(),
        "malformed response: unknown failure type: Other"
    );

    assert_eq!(
        Response::of_parts(None, s("Success"), s("OK"), Err("no failure".into())).unwrap(),
        Response::Success("OK".into())
    );
    assert_eq!(
        Response::of_parts(None, s("Failure"), None, Ok(FailureKind::Auth)).unwrap(),
        Response::Failure(FailureKind::Auth)
    );
    assert_eq!(Response::of_parts(s("bad"), s("Success"), s("OK"), Ok(FailureKind::Auth)).unwrap_err(), "bad");
    assert_eq!(
        Response::of_parts(None, None, s("OK"), Ok(FailureKind::Auth)).unwrap_err(),
        "malformed response: no type"
    );
    assert_eq!(
        Response::of_parts(None, s("Success"), None, Ok(FailureKind::Auth)).unwrap_err(),
        "malformed response: payload of Success"
    );
    assert_eq!(
        Response::of_parts(None, s("Failure"), s("OK"), Err("no failure".into())).unwrap_err(),
        "no failure"
    );
    assert_eq!(
        Response::of_parts(None, s("Maybe"), s("OK"), Ok(FailureKind::Auth)).unwrap_err(),
        "malformed response: unknown type: Maybe"
    );
}
