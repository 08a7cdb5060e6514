//! The messages that the agent and its clients exchange: one JSON object
//! per line.

use vstd::prelude::*;
use vstd::string::*;

use crate::json::{fault, json_fault, json_quoted, json_string_at, json_u64_at, quoted, string_at,
    u64_at};
use crate::text::{decimal, decimal_string, join};

verus! {

/// The version of the agent protocol.
pub const PROTOCOL_VERSION: u32 = 1;

/// What a client asks of the agent.
#[derive(Debug, PartialEq)]
pub enum RequestBody {
    /// Unwrap the key file at a path (second) with a passphrase (third), and
    /// keep the key under a public key (first).
    UnwrapKey(String, String, String),
    /// Say whether the key for a public key is held.
    QueryUnwrappedKey(String),
    /// Hand out the key for a public key.
    GetUnwrappedKey(String),
    /// Forget all keys.
    FlushKeys,
    /// Exit.
    Quit,
}

/// A request: the protocol version of the client, and what it asks.
#[derive(Debug, PartialEq)]
pub struct Request {
    pub protocol: u32,
    pub body: RequestBody,
}

/// Why a request failed.
#[derive(Debug, PartialEq)]
pub enum FailureKind {
    /// The client could not be authenticated.
    Auth,
    /// Reading from the client failed.
    Io(String),
    /// The request could not be parsed.
    Malformed(String),
    /// The key could not be unwrapped.
    Unwrap(String),
    /// The client speaks another protocol version than this one, the agent's.
    VersionMismatch(u32),
    /// The agent holds no key for the public key.
    Query,
}

/// What the agent answers.
#[derive(Debug, PartialEq)]
pub enum Response {
    /// The request succeeded, with some data.
    Success(String),
    /// The request failed.
    Failure(FailureKind),
}

/// What a request body holds, as mathematical values.
pub enum RequestBodyView {
    UnwrapKey(Seq<char>, Seq<char>, Seq<char>),
    QueryUnwrappedKey(Seq<char>),
    GetUnwrappedKey(Seq<char>),
    FlushKeys,
    Quit,
}

/// What a request holds, as mathematical values.
pub struct RequestView {
    pub protocol: u32,
    pub body: RequestBodyView,
}

/// What a failure holds, as mathematical values.
pub enum FailureView {
    Auth,
    Io(Seq<char>),
    Malformed(Seq<char>),
    Unwrap(Seq<char>),
    VersionMismatch(u32),
    Query,
}

/// What a response holds, as mathematical values.
pub enum ResponseView {
    Success(Seq<char>),
    Failure(FailureView),
}

impl View for RequestBody {
    type V = RequestBodyView;

    open spec fn view(&self) -> RequestBodyView {
        match self {
            RequestBody::UnwrapKey(a, b, c) => RequestBodyView::UnwrapKey(a@, b@, c@),
            RequestBody::QueryUnwrappedKey(a) => RequestBodyView::QueryUnwrappedKey(a@),
            RequestBody::GetUnwrappedKey(a) => RequestBodyView::GetUnwrappedKey(a@),
            RequestBody::FlushKeys => RequestBodyView::FlushKeys,
            RequestBody::Quit => RequestBodyView::Quit,
        }
    }
}

impl View for Request {
    type V = RequestView;

    open spec fn view(&self) -> RequestView {
        RequestView { protocol: self.protocol, body: self.body@ }
    }
}

impl View for FailureKind {
    type V = FailureView;

    open spec fn view(&self) -> FailureView {
        match self {
            FailureKind::Auth => FailureView::Auth,
            FailureKind::Io(m) => FailureView::Io(m@),
            FailureKind::Malformed(m) => FailureView::Malformed(m@),
            FailureKind::Unwrap(m) => FailureView::Unwrap(m@),
            FailureKind::VersionMismatch(v) => FailureView::VersionMismatch(*v),
            FailureKind::Query => FailureView::Query,
        }
    }
}

impl View for Response {
    type V = ResponseView;

    open spec fn view(&self) -> ResponseView {
        match self {
            Response::Success(s) => ResponseView::Success(s@),
            Response::Failure(k) => ResponseView::Failure(k@),
        }
    }
}

impl RequestBodyView {
    /// The JSON object of the body: its tag, then its payload if it has one.
    pub open spec fn json(self) -> Seq<char> {
        match self {
            RequestBodyView::UnwrapKey(a, b, c) => "{\"type\":\"UnwrapKey\",\"body\":["@
                + json_quoted(a) + ","@ + json_quoted(b) + ","@ + json_quoted(c) + "]}"@,
            RequestBodyView::QueryUnwrappedKey(a) => "{\"type\":\"QueryUnwrappedKey\",\"body\":"@
                + json_quoted(a) + "}"@,
            RequestBodyView::GetUnwrappedKey(a) => "{\"type\":\"GetUnwrappedKey\",\"body\":"@
                + json_quoted(a) + "}"@,
            RequestBodyView::FlushKeys => "{\"type\":\"FlushKeys\"}"@,
            RequestBodyView::Quit => "{\"type\":\"Quit\"}"@,
        }
    }
}

impl RequestView {
    /// The JSON object of the request.
    pub open spec fn json(self) -> Seq<char> {
        "{\"protocol\":"@ + decimal(self.protocol as nat) + ",\"body\":"@ + self.body.json() + "}"@
    }
}

impl FailureView {
    /// The JSON object of the failure: its tag, then its payload if it has
    /// one.
    pub open spec fn json(self) -> Seq<char> {
        match self {
            FailureView::Auth => "{\"type\":\"Auth\"}"@,
            FailureView::Io(m) => "{\"type\":\"Io\",\"body\":"@ + json_quoted(m) + "}"@,
            FailureView::Malformed(m) => "{\"type\":\"Malformed\",\"body\":"@ + json_quoted(m)
                + "}"@,
            FailureView::Unwrap(m) => "{\"type\":\"Unwrap\",\"body\":"@ + json_quoted(m) + "}"@,
            FailureView::VersionMismatch(v) => "{\"type\":\"VersionMismatch\",\"body\":"@
                + decimal(v as nat) + "}"@,
            FailureView::Query => "{\"type\":\"Query\"}"@,
        }
    }
}

impl ResponseView {
    /// The JSON object of the response.
    pub open spec fn json(self) -> Seq<char> {
        match self {
            ResponseView::Success(s) => "{\"type\":\"Success\",\"body\":"@ + json_quoted(s) + "}"@,
            ResponseView::Failure(k) => "{\"type\":\"Failure\",\"body\":"@ + k.json() + "}"@,
        }
    }
}

/// The text of a string that may be missing.
pub open spec fn text_of(found: Option<String>) -> Option<Seq<char>> {
    match found {
        Some(s) => Some(s@),
        None => None,
    }
}

/// The request body with the tag `tag` and the strings `first`, `second`
/// and `third` of its payload, each as far as it was found; or what is wrong
/// with them. A request to unwrap a key needs all three, a query and a
/// request for a key the first.
pub open spec fn request_body_from(
    tag: Option<Seq<char>>,
    first: Option<Seq<char>>,
    second: Option<Seq<char>>,
    third: Option<Seq<char>>,
) -> Result<RequestBodyView, Seq<char>> {
    match tag {
        None => Err("malformed request: no body type"@),
        Some(tag) => if tag == "UnwrapKey"@ {
            match (first, second, third) {
                (Some(a), Some(b), Some(c)) => Ok(RequestBodyView::UnwrapKey(a, b, c)),
                _ => Err("malformed request: payload of UnwrapKey"@),
            }
        } else if tag == "QueryUnwrappedKey"@ {
            match first {
                Some(a) => Ok(RequestBodyView::QueryUnwrappedKey(a)),
                None => Err("malformed request: payload of QueryUnwrappedKey"@),
            }
        } else if tag == "GetUnwrappedKey"@ {
            match first {
                Some(a) => Ok(RequestBodyView::GetUnwrappedKey(a)),
                None => Err("malformed request: payload of GetUnwrappedKey"@),
            }
        } else if tag == "FlushKeys"@ {
            Ok(RequestBodyView::FlushKeys)
        } else if tag == "Quit"@ {
            Ok(RequestBodyView::Quit)
        } else {
            Err("malformed request: unknown body type: "@ + tag)
        },
    }
}

/// The request body that the JSON document `doc` holds under `body`, or what
/// is wrong with it. The payload of a request to unwrap a key is a list of
/// three strings; that of a query and of a request for a key is a string.
pub open spec fn decode_request_body(doc: Seq<char>) -> Result<RequestBodyView, Seq<char>> {
    match json_string_at(doc, "/body/type"@) {
        None => request_body_from(None, None, None, None),
        Some(tag) => if tag == "UnwrapKey"@ {
            request_body_from(
                Some(tag),
                json_string_at(doc, "/body/body/0"@),
                json_string_at(doc, "/body/body/1"@),
                json_string_at(doc, "/body/body/2"@),
            )
        } else {
            request_body_from(Some(tag), json_string_at(doc, "/body/body"@), None, None)
        },
    }
}

/// The request with the protocol version `protocol` and the body `body`,
/// each as far as it was found, where `fault` says what is wrong with the
/// document as JSON, if anything; or what is wrong with the parts.
pub open spec fn request_from(
    fault: Option<Seq<char>>,
    protocol: Option<u64>,
    body: Result<RequestBodyView, Seq<char>>,
) -> Result<RequestView, Seq<char>> {
    match fault {
        Some(msg) => Err(msg),
        None => match protocol {
            None => Err("malformed request: no protocol"@),
            Some(protocol) => if protocol > u32::MAX {
                Err("malformed request: protocol out of range"@)
            } else {
                match body {
                    Err(msg) => Err(msg),
                    Ok(body) => Ok(RequestView { protocol: protocol as u32, body }),
                }
            },
        },
    }
}

/// The request that the JSON document `doc` holds, or what is wrong with it.
pub open spec fn decode_request(doc: Seq<char>) -> Result<RequestView, Seq<char>> {
    request_from(json_fault(doc), json_u64_at(doc, "/protocol"@), decode_request_body(doc))
}

/// The failure with the tag `tag` and the payload, which is the string
/// `text` or the number `number`, each as far as it was found; or what is
/// wrong with them.
pub open spec fn failure_from(
    tag: Option<Seq<char>>,
    text: Option<Seq<char>>,
    number: Option<u64>,
) -> Result<FailureView, Seq<char>> {
    match tag {
        None => Err("malformed response: no failure type"@),
        Some(tag) => if tag == "Auth"@ {
            Ok(FailureView::Auth)
        } else if tag == "Query"@ {
            Ok(FailureView::Query)
        } else if tag == "VersionMismatch"@ {
            match number {
                Some(v) => if v <= u32::MAX {
                    Ok(FailureView::VersionMismatch(v as u32))
                } else {
                    Err("malformed response: payload of VersionMismatch"@)
                },
                None => Err("malformed response: payload of VersionMismatch"@),
            }
        } else {
            match text {
                None => Err("malformed response: payload of failure"@),
                Some(m) => if tag == "Io"@ {
                    Ok(FailureView::Io(m))
                } else if tag == "Malformed"@ {
                    Ok(FailureView::Malformed(m))
                } else if tag == "Unwrap"@ {
                    Ok(FailureView::Unwrap(m))
                } else {
                    Err("malformed response: unknown failure type: "@ + tag)
                },
            }
        },
    }
}

/// The failure that the JSON document `doc` holds under `body`, or what is
/// wrong with it.
pub open spec fn decode_failure(doc: Seq<char>) -> Result<FailureView, Seq<char>> {
    failure_from(
        json_string_at(doc, "/body/type"@),
        json_string_at(doc, "/body/body"@),
        json_u64_at(doc, "/body/body"@),
    )
}

/// The response with the tag `tag`, the data `text` of a success and the
/// failure `failure`, each as far as it was found, where `fault` says what
/// is wrong with the document as JSON, if anything; or what is wrong with
/// the parts.
pub open spec fn response_from(
    fault: Option<Seq<char>>,
    tag: Option<Seq<char>>,
    text: Option<Seq<char>>,
    failure: Result<FailureView, Seq<char>>,
) -> Result<ResponseView, Seq<char>> {
    match fault {
        Some(msg) => Err(msg),
        None => match tag {
            None => Err("malformed response: no type"@),
            Some(tag) => if tag == "Success"@ {
                match text {
                    Some(s) => Ok(ResponseView::Success(s)),
                    None => Err("malformed response: payload of Success"@),
                }
            } else if tag == "Failure"@ {
                match failure {
                    Ok(k) => Ok(ResponseView::Failure(k)),
                    Err(msg) => Err(msg),
                }
            } else {
                Err("malformed response: unknown type: "@ + tag)
            },
        },
    }
}

/// The response that the JSON document `doc` holds, or what is wrong with
/// it.
pub open spec fn decode_response(doc: Seq<char>) -> Result<ResponseView, Seq<char>> {
    response_from(
        json_fault(doc),
        json_string_at(doc, "/type"@),
        json_string_at(doc, "/body"@),
        decode_failure(doc),
    )
}

/// What `r` holds, as mathematical values.
pub open spec fn decoded<T: View>(r: Result<T, String>) -> Result<T::V, Seq<char>> {
    match r {
        Ok(value) => Ok(value@),
        Err(msg) => Err(msg@),
    }
}

impl RequestBody {
    /// The JSON object of the body.
    pub fn to_json(&self) -> (doc: String)
        ensures
            doc@ == self@.json(),
    {
        match self {
            RequestBody::UnwrapKey(a, b, c) => {
                let mut s = "{\"type\":\"UnwrapKey\",\"body\":[".to_owned();
                s.append(quoted(a.as_str()).as_str());
                s.append(",");
                s.append(quoted(b.as_str()).as_str());
                s.append(",");
                s.append(quoted(c.as_str()).as_str());
                s.append("]}");
                s
            },
            RequestBody::QueryUnwrappedKey(a) => {
                let mut s = "{\"type\":\"QueryUnwrappedKey\",\"body\":".to_owned();
                s.append(quoted(a.as_str()).as_str());
                s.append("}");
                s
            },
            RequestBody::GetUnwrappedKey(a) => {
                let mut s = "{\"type\":\"GetUnwrappedKey\",\"body\":".to_owned();
                s.append(quoted(a.as_str()).as_str());
                s.append("}");
                s
            },
            RequestBody::FlushKeys => "{\"type\":\"FlushKeys\"}".to_owned(),
            RequestBody::Quit => "{\"type\":\"Quit\"}".to_owned(),
        }
    }

    /// Reads the body of the request that `doc` holds.
    pub fn from_json(doc: &str) -> (read: Result<RequestBody, String>)
        ensures
            decoded(read) == decode_request_body(doc@),
    {
        let tag = string_at(doc, "/body/type");
        let unwrap = match &tag {
            Some(t) => t.as_str().eq("UnwrapKey"),
            None => false,
        };
        if unwrap {
            RequestBody::of_parts(
                tag,
                string_at(doc, "/body/body/0"),
                string_at(doc, "/body/body/1"),
                string_at(doc, "/body/body/2"),
            )
        } else if tag.is_some() {
            RequestBody::of_parts(tag, string_at(doc, "/body/body"), None, None)
        } else {
            RequestBody::of_parts(tag, None, None, None)
        }
    }

    /// The request body with the tag `tag` and the strings `first`,
    /// `second` and `third` of its payload, each as far as it was found in
    /// a document. Fails, with a message, exactly where no tag was found, the
    /// tag is unknown, or a string that the tag calls for is missing.
    pub fn of_parts(
        tag: Option<String>,
        first: Option<String>,
        second: Option<String>,
        third: Option<String>,
    ) -> (read: Result<RequestBody, String>)
        ensures
            decoded(read) == request_body_from(
                text_of(tag),
                text_of(first),
                text_of(second),
                text_of(third),
            ),
    {
        let tag = match tag {
            Some(t) => t,
            None => return Err("malformed request: no body type".to_owned()),
        };
        if tag.as_str().eq("UnwrapKey") {
            match (first, second, third) {
                (Some(a), Some(b), Some(c)) => Ok(RequestBody::UnwrapKey(a, b, c)),
                _ => Err("malformed request: payload of UnwrapKey".to_owned()),
            }
        } else if tag.as_str().eq("QueryUnwrappedKey") {
            match first {
                Some(a) => Ok(RequestBody::QueryUnwrappedKey(a)),
                None => Err("malformed request: payload of QueryUnwrappedKey".to_owned()),
            }
        } else if tag.as_str().eq("GetUnwrappedKey") {
            match first {
                Some(a) => Ok(RequestBody::GetUnwrappedKey(a)),
                None => Err("malformed request: payload of GetUnwrappedKey".to_owned()),
            }
        } else if tag.as_str().eq("FlushKeys") {
            Ok(RequestBody::FlushKeys)
        } else if tag.as_str().eq("Quit") {
            Ok(RequestBody::Quit)
        } else {
            Err(join("malformed request: unknown body type: ", tag.as_str()))
        }
    }
}

impl Request {
    /// The JSON object of the request.
    pub fn to_json(&self) -> (doc: String)
        ensures
            doc@ == self@.json(),
    {
        let mut doc = "{\"protocol\":".to_owned();
        doc.append(decimal_string(self.protocol as u64).as_str());
        doc.append(",\"body\":");
        doc.append(self.body.to_json().as_str());
        doc.append("}");
        doc
    }

    /// Reads a request from its JSON object. Fails, with a message, exactly
    /// where `doc` is not JSON or lacks a part of a request.
    pub fn from_json(doc: &str) -> (read: Result<Request, String>)
        ensures
            decoded(read) == decode_request(doc@),
    {
        Request::of_parts(fault(doc), u64_at(doc, "/protocol"), RequestBody::from_json(doc))
    }

    /// The request with the protocol version `protocol` and the body
    /// `body`, each as far as it was found in a document, where `fault` says
    /// what is wrong with the document as JSON, if anything. Fails, with a
    /// message, exactly where something is wrong or missing, or the
    /// protocol version is above 4294967295; what is wrong with the JSON
    /// comes first, then the protocol version, then the body.
    pub fn of_parts(fault: Option<String>, protocol: Option<u64>, body: Result<RequestBody, String>) -> (read:
        Result<Request, String>)
        ensures
            decoded(read) == request_from(text_of(fault), protocol, decoded(body)),
    {
        if let Some(msg) = fault {
            return Err(msg);
        }
        let protocol = match protocol {
            Some(p) => p,
            None => return Err("malformed request: no protocol".to_owned()),
        };
        if protocol > 0xffff_ffff {
            return Err("malformed request: protocol out of range".to_owned());
        }
        match body {
            Err(msg) => Err(msg),
            Ok(body) => Ok(Request { protocol: protocol as u32, body }),
        }
    }
}

impl FailureKind {
    /// The JSON object of the failure.
    pub fn to_json(&self) -> (doc: String)
        ensures
            doc@ == self@.json(),
    {
        match self {
            FailureKind::Auth => "{\"type\":\"Auth\"}".to_owned(),
            FailureKind::Io(m) => {
                let mut s = "{\"type\":\"Io\",\"body\":".to_owned();
                s.append(quoted(m.as_str()).as_str());
                s.append("}");
                s
            },
            FailureKind::Malformed(m) => {
                let mut s = "{\"type\":\"Malformed\",\"body\":".to_owned();
                s.append(quoted(m.as_str()).as_str());
                s.append("}");
                s
            },
            FailureKind::Unwrap(m) => {
                let mut s = "{\"type\":\"Unwrap\",\"body\":".to_owned();
                s.append(quoted(m.as_str()).as_str());
                s.append("}");
                s
            },
            FailureKind::VersionMismatch(v) => {
                let mut s = "{\"type\":\"VersionMismatch\",\"body\":".to_owned();
                s.append(decimal_string(*v as u64).as_str());
                s.append("}");
                s
            },
            FailureKind::Query => "{\"type\":\"Query\"}".to_owned(),
        }
    }

    /// Reads the failure that `doc` holds under `body`.
    pub fn from_json(doc: &str) -> (read: Result<FailureKind, String>)
        ensures
            decoded(read) == decode_failure(doc@),
    {
        FailureKind::of_parts(
            string_at(doc, "/body/type"),
            string_at(doc, "/body/body"),
            u64_at(doc, "/body/body"),
        )
    }

    /// The failure with the tag `tag` and the payload, which is the string
    /// `text` or the number `number`, each as far as it was found in a
    /// document. Fails, with a message, exactly where no tag was found, the
    /// tag is unknown, or the payload that the tag calls for is missing.
    pub fn of_parts(tag: Option<String>, text: Option<String>, number: Option<u64>) -> (read: Result<
        FailureKind,
        String,
    >)
        ensures
            decoded(read) == failure_from(text_of(tag), text_of(text), number),
    {
        let tag = match tag {
            Some(t) => t,
            None => return Err("malformed response: no failure type".to_owned()),
        };
        if tag.as_str().eq("Auth") {
            Ok(FailureKind::Auth)
        } else if tag.as_str().eq("Query") {
            Ok(FailureKind::Query)
        } else if tag.as_str().eq("VersionMismatch") {
            match number {
                Some(v) => if v <= 0xffff_ffff {
                    Ok(FailureKind::VersionMismatch(v as u32))
                } else {
                    Err("malformed response: payload of VersionMismatch".to_owned())
                },
                None => Err("malformed response: payload of VersionMismatch".to_owned()),
            }
        } else {
            match text {
                None => Err("malformed response: payload of failure".to_owned()),
                Some(m) => if tag.as_str().eq("Io") {
                    Ok(FailureKind::Io(m))
                } else if tag.as_str().eq("Malformed") {
                    Ok(FailureKind::Malformed(m))
                } else if tag.as_str().eq("Unwrap") {
                    Ok(FailureKind::Unwrap(m))
                } else {
                    Err(join("malformed response: unknown failure type: ", tag.as_str()))
                },
            }
        }
    }
}

impl Response {
    /// The JSON object of the response.
    pub fn to_json(&self) -> (doc: String)
        ensures
            doc@ == self@.json(),
    {
        match self {
            Response::Success(s) => {
                let mut doc = "{\"type\":\"Success\",\"body\":".to_owned();
                doc.append(quoted(s.as_str()).as_str());
                doc.append("}");
                doc
            },
            Response::Failure(k) => {
                let mut doc = "{\"type\":\"Failure\",\"body\":".to_owned();
                doc.append(k.to_json().as_str());
                doc.append("}");
                doc
            },
        }
    }

    /// Reads a response from its JSON object. Fails, with a message, exactly
    /// where `doc` is not JSON or lacks a part of a response.
    pub fn from_json(doc: &str) -> (read: Result<Response, String>)
        ensures
            decoded(read) == decode_response(doc@),
    {
        Response::of_parts(
            fault(doc),
            string_at(doc, "/type"),
            string_at(doc, "/body"),
            FailureKind::from_json(doc),
        )
    }

    /// The response with the tag `tag`, the data `text` of a success and
    /// the failure `failure`, each as far as it was found in a document,
    /// where `fault` says what is wrong with the document as JSON, if
    /// anything. Fails, with a message, exactly where something is wrong or
    /// missing.
    pub fn of_parts(
        fault: Option<String>,
        tag: Option<String>,
        text: Option<String>,
        failure: Result<FailureKind, String>,
    ) -> (read: Result<Response, String>)
        ensures
            decoded(read) == response_from(
                text_of(fault),
                text_of(tag),
                text_of(text),
                decoded(failure),
            ),
    {
        if let Some(msg) = fault {
            return Err(msg);
        }
        let tag = match tag {
            Some(t) => t,
            None => return Err("malformed response: no type".to_owned()),
        };
        if tag.as_str().eq("Success") {
            match text {
                Some(s) => Ok(Response::Success(s)),
                None => Err("malformed response: payload of Success".to_owned()),
            }
        } else if tag.as_str().eq("Failure") {
            match failure {
                Ok(k) => Ok(Response::Failure(k)),
                Err(msg) => Err(msg),
            }
        } else {
            Err(join("malformed response: unknown type: ", tag.as_str()))
        }
    }
}

/// Whether `line` is free of line feeds.
pub open spec fn one_line(line: Seq<u8>) -> bool {
    forall|i: int| 0 <= i < line.len() ==> line[i] != 10
}

/// The first message in `buffer` and what follows it, where `buffer` holds
/// a line feed: the message is what stands before the first one, and not a
/// byte after it is taken.
pub fn split_frame(buffer: &Vec<u8>) -> (frame: Option<(Vec<u8>, Vec<u8>)>)
    ensures
        match frame {
            Some((line, rest)) => one_line(line@) && buffer@ == line@ + seq![10u8] + rest@,
            None => one_line(buffer@),
        },
{
    let mut i: usize = 0;
    while i < buffer.len() && buffer[i] != 10
        invariant
            i <= buffer.len(),
            one_line(buffer@.take(i as int)),
        decreases buffer.len() - i,
    {
        i += 1;
    }
    if i == buffer.len() {
        assert(buffer@.take(i as int) =~= buffer@);
        return None;
    }
    let mut line: Vec<u8> = Vec::new();
    let mut rest: Vec<u8> = Vec::new();
    let mut j: usize = 0;
    while j < i
        invariant
            j <= i < buffer.len(),
            line@ == buffer@.take(j as int),
        decreases i - j,
    {
        line.push(buffer[j]);
        j += 1;
    }
    let mut k: usize = i + 1;
    while k < buffer.len()
        invariant
            i < k <= buffer.len(),
            rest@ == buffer@.subrange(i + 1, k as int),
        decreases buffer.len() - k,
    {
        rest.push(buffer[k]);
        k += 1;
    }
    assert(buffer@ =~= line@ + seq![10u8] + rest@);
    Some((line, rest))
}

/// The line that carries `message`: the message and a line feed.
pub fn frame(message: &str) -> (line: String)
    ensures
        line@ == message@.push('\n'),
{
    let mut line = message.to_owned();
    line.push('\n');
    line
}

} // verus!
