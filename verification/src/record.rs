//! Records: a label, a time stamp and a body of one of three kinds.

use vstd::prelude::*;
use vstd::string::*;

use crate::error::{Error, ErrorKind};
use crate::json::{fault, json_fault, json_quoted, json_string_at, json_u64_at, quoted, string_at,
    u64_at};
use crate::text::{decimal, decimal_string, join, wipe};
use crate::util::current_timestamp;

verus! {

/// The fields of a login record.
#[derive(Debug, PartialEq, Eq)]
pub struct LoginFields {
    /// The username associated with the login.
    pub username: String,
    /// The password associated with the login.
    pub password: String,
}

/// The fields of an environment record.
#[derive(Debug, PartialEq, Eq)]
pub struct EnvironmentFields {
    /// The variable associated with the environment.
    pub variable: String,
    /// The value associated with the environment.
    pub value: String,
}

/// The fields of an unstructured record.
#[derive(Debug, PartialEq, Eq)]
pub struct UnstructuredFields {
    /// The contents associated with the record.
    pub contents: String,
}

/// The body of a record.
#[derive(Debug, PartialEq, Eq)]
pub enum RecordBody {
    Login(LoginFields),
    Environment(EnvironmentFields),
    Unstructured(UnstructuredFields),
}

/// The envelope of a record.
#[derive(Debug, PartialEq, Eq)]
pub struct Record {
    /// When the record was created, as seconds since the Unix epoch.
    pub timestamp: u64,
    /// The identifying label of the record.
    pub label: String,
    /// The typed contents of the record.
    pub body: RecordBody,
}

/// What a record body holds, as mathematical values.
pub enum BodyView {
    Login { username: Seq<char>, password: Seq<char> },
    Environment { variable: Seq<char>, value: Seq<char> },
    Unstructured { contents: Seq<char> },
}

/// What a record holds, as mathematical values.
pub struct RecordView {
    pub timestamp: u64,
    pub label: Seq<char>,
    pub body: BodyView,
}

impl View for RecordBody {
    type V = BodyView;

    open spec fn view(&self) -> BodyView {
        match self {
            RecordBody::Login(l) => BodyView::Login { username: l.username@, password: l.password@ },
            RecordBody::Environment(e) => BodyView::Environment {
                variable: e.variable@,
                value: e.value@,
            },
            RecordBody::Unstructured(u) => BodyView::Unstructured { contents: u.contents@ },
        }
    }
}

impl View for Record {
    type V = RecordView;

    open spec fn view(&self) -> RecordView {
        RecordView { timestamp: self.timestamp, label: self.label@, body: self.body@ }
    }
}

impl BodyView {
    /// The token that names the kind of this body.
    pub open spec fn kind(self) -> Seq<char> {
        match self {
            BodyView::Login { .. } => "login"@,
            BodyView::Environment { .. } => "environment"@,
            BodyView::Unstructured { .. } => "unstructured"@,
        }
    }

    /// The body with every field empty.
    pub open spec fn cleared(self) -> BodyView {
        match self {
            BodyView::Login { .. } => BodyView::Login { username: Seq::empty(), password: Seq::empty() },
            BodyView::Environment { .. } => BodyView::Environment {
                variable: Seq::empty(),
                value: Seq::empty(),
            },
            BodyView::Unstructured { .. } => BodyView::Unstructured { contents: Seq::empty() },
        }
    }

    /// The JSON object of the fields.
    pub open spec fn fields_json(self) -> Seq<char> {
        match self {
            BodyView::Login { username, password } => "{\"username\":"@ + json_quoted(username)
                + ",\"password\":"@ + json_quoted(password) + "}"@,
            BodyView::Environment { variable, value } => "{\"variable\":"@ + json_quoted(variable)
                + ",\"value\":"@ + json_quoted(value) + "}"@,
            BodyView::Unstructured { contents } => "{\"contents\":"@ + json_quoted(contents) + "}"@,
        }
    }

    /// The JSON object of the body: its kind as a tag, then its fields.
    pub open spec fn json(self) -> Seq<char> {
        "{\"kind\":\""@ + self.kind() + "\",\"fields\":"@ + self.fields_json() + "}"@
    }
}

impl RecordView {
    /// The JSON document of the record.
    pub open spec fn json(self) -> Seq<char> {
        "{\"timestamp\":"@ + decimal(self.timestamp as nat) + ",\"label\":"@ + json_quoted(
            self.label,
        ) + ",\"body\":"@ + self.body.json() + "}"@
    }

    /// The record under another label.
    pub open spec fn relabeled(self, label: Seq<char>) -> RecordView {
        RecordView { label, ..self }
    }
}

/// The body of the kind `kind` with the fields `first` and `second`, each
/// as far as it was found; or what is wrong with them. A login has a
/// username and a password, an environment a variable and a value, and
/// what is unstructured has contents only.
pub open spec fn body_from(
    kind: Option<Seq<char>>,
    first: Option<Seq<char>>,
    second: Option<Seq<char>>,
) -> Result<BodyView, Seq<char>> {
    match kind {
        None => Err("malformed record: no body kind"@),
        Some(kind) => if kind == "login"@ {
            match (first, second) {
                (Some(username), Some(password)) => Ok(BodyView::Login { username, password }),
                _ => Err("malformed record: login fields"@),
            }
        } else if kind == "environment"@ {
            match (first, second) {
                (Some(variable), Some(value)) => Ok(BodyView::Environment { variable, value }),
                _ => Err("malformed record: environment fields"@),
            }
        } else if kind == "unstructured"@ {
            match first {
                Some(contents) => Ok(BodyView::Unstructured { contents }),
                None => Err("malformed record: unstructured fields"@),
            }
        } else {
            Err("malformed record: unknown kind: "@ + kind)
        },
    }
}

/// Where the first field of a body of the kind `kind` stands in the JSON
/// of a record.
pub open spec fn first_pointer(kind: Seq<char>) -> Seq<char> {
    if kind == "login"@ {
        "/body/fields/username"@
    } else if kind == "environment"@ {
        "/body/fields/variable"@
    } else {
        "/body/fields/contents"@
    }
}

/// Where the second field of a body of the kind `kind` stands in the JSON
/// of a record.
pub open spec fn second_pointer(kind: Seq<char>) -> Seq<char> {
    if kind == "login"@ {
        "/body/fields/password"@
    } else {
        "/body/fields/value"@
    }
}

/// The body that the JSON document `doc` describes, or what is wrong with it.
pub open spec fn decode_body(doc: Seq<char>) -> Result<BodyView, Seq<char>> {
    match json_string_at(doc, "/body/kind"@) {
        None => body_from(None, None, None),
        Some(kind) => body_from(
            Some(kind),
            json_string_at(doc, first_pointer(kind)),
            json_string_at(doc, second_pointer(kind)),
        ),
    }
}

/// The record with the parts `timestamp`, `label` and `body`, each as far
/// as it was found, where `fault` says what is wrong with the document as
/// JSON, if anything; or what is wrong with the parts.
pub open spec fn record_from(
    fault: Option<Seq<char>>,
    timestamp: Option<u64>,
    label: Option<Seq<char>>,
    body: Result<BodyView, Seq<char>>,
) -> Result<RecordView, Seq<char>> {
    match fault {
        Some(msg) => Err(msg),
        None => match timestamp {
            None => Err("malformed record: no timestamp"@),
            Some(timestamp) => match label {
                None => Err("malformed record: no label"@),
                Some(label) => match body {
                    Err(msg) => Err(msg),
                    Ok(body) => Ok(RecordView { timestamp, label, body }),
                },
            },
        },
    }
}

/// The record that the JSON document `doc` describes, or what is wrong with it.
pub open spec fn decode_record(doc: Seq<char>) -> Result<RecordView, Seq<char>> {
    record_from(
        json_fault(doc),
        json_u64_at(doc, "/timestamp"@),
        json_string_at(doc, "/label"@),
        decode_body(doc),
    )
}

/// Whether `label` can name a record, as the name of a file in the store:
/// it is not empty, it is neither `.` nor `..`, and it holds neither a path
/// separator nor a NUL.
pub open spec fn valid_label(label: Seq<char>) -> bool {
    &&& label.len() > 0
    &&& label != seq!['.']
    &&& label != seq!['.', '.']
    &&& forall|i: int| 0 <= i < label.len() ==> label[i] != '/' && label[i] != '\0'
}

/// Says whether `label` can name a record.
pub fn is_valid_label(label: &str) -> (ok: bool)
    ensures
        ok == valid_label(label@),
{
    let chars = crate::text::chars_of(label);
    if chars.len() == 0 {
        return false;
    }
    if chars[0] == '.' && (chars.len() == 1 || (chars.len() == 2 && chars[1] == '.')) {
        assert(chars@ =~= seq!['.'] || chars@ =~= seq!['.', '.']);
        return false;
    }
    assert(chars@ != seq!['.'] && chars@ != seq!['.', '.']) by {
        if chars@ == seq!['.'] || chars@ == seq!['.', '.'] {
            assert(chars@[0] == '.');
            assert(chars@.len() == 1 || (chars@.len() == 2 && chars@[1] == '.'));
        }
    }
    let mut i: usize = 0;
    while i < chars.len()
        invariant
            i <= chars.len(),
            chars@ == label@,
            chars@.len() > 0,
            chars@ != seq!['.'] && chars@ != seq!['.', '.'],
            forall|j: int| 0 <= j < i ==> chars@[j] != '/' && chars@[j] != '\0',
        decreases chars.len() - i,
    {
        if chars[i] == '/' || chars[i] == '\0' {
            return false;
        }
        i += 1;
    }
    true
}

impl LoginFields {
    /// Wipes both fields.
    pub fn zeroize(&mut self)
        ensures
            final(self).username@ == Seq::<char>::empty(),
            final(self).password@ == Seq::<char>::empty(),
    {
        wipe(&mut self.username);
        wipe(&mut self.password);
    }
}

impl EnvironmentFields {
    /// Wipes both fields.
    pub fn zeroize(&mut self)
        ensures
            final(self).variable@ == Seq::<char>::empty(),
            final(self).value@ == Seq::<char>::empty(),
    {
        wipe(&mut self.variable);
        wipe(&mut self.value);
    }
}

impl UnstructuredFields {
    /// Wipes the contents.
    pub fn zeroize(&mut self)
        ensures
            final(self).contents@ == Seq::<char>::empty(),
    {
        wipe(&mut self.contents);
    }
}

impl RecordBody {
    /// The token that names the kind of this body: `login`, `environment`
    /// or `unstructured`.
    pub fn kind(&self) -> (token: &'static str)
        ensures
            token@ == self@.kind(),
    {
        match self {
            RecordBody::Login(_) => "login",
            RecordBody::Environment(_) => "environment",
            RecordBody::Unstructured(_) => "unstructured",
        }
    }

    /// The kind of this body, as `Display` would give it.
    pub fn to_string(&self) -> (token: String)
        ensures
            token@ == self@.kind(),
    {
        self.kind().to_owned()
    }

    /// Wipes every field, keeping the kind.
    pub fn zeroize(&mut self)
        ensures
            final(self)@ == old(self)@.cleared(),
    {
        match self {
            RecordBody::Login(l) => l.zeroize(),
            RecordBody::Environment(e) => e.zeroize(),
            RecordBody::Unstructured(u) => u.zeroize(),
        }
    }

    /// Whether this body and `other` are of one kind and hold the same
    /// fields.
    pub fn same_as(&self, other: &RecordBody) -> (same: bool)
        ensures
            same == (self@ == other@),
    {
        match (self, other) {
            (RecordBody::Login(a), RecordBody::Login(b)) => a.username.as_str().eq(
                b.username.as_str(),
            ) && a.password.as_str().eq(b.password.as_str()),
            (RecordBody::Environment(a), RecordBody::Environment(b)) => a.variable.as_str().eq(
                b.variable.as_str(),
            ) && a.value.as_str().eq(b.value.as_str()),
            (RecordBody::Unstructured(a), RecordBody::Unstructured(b)) => a.contents.as_str().eq(
                b.contents.as_str(),
            ),
            _ => false,
        }
    }

    /// The body of the kind `kind` with the fields `first` and `second`,
    /// each as far as it was found in a document. Fails, with a message,
    /// exactly where no kind was found, the kind is none of `login`,
    /// `environment` and `unstructured`, or a field of the kind is missing.
    pub fn of_fields(kind: Option<String>, first: Option<String>, second: Option<String>) -> (body:
        Result<RecordBody, String>)
        ensures
            match body_from(
                match kind {
                    Some(k) => Some(k@),
                    None => None,
                },
                match first {
                    Some(f) => Some(f@),
                    None => None,
                },
                match second {
                    Some(f) => Some(f@),
                    None => None,
                },
            ) {
                Ok(b) => body matches Ok(made) && made@ == b,
                Err(msg) => body matches Err(m) && m@ == msg,
            },
    {
        let kind = match kind {
            Some(kind) => kind,
            None => return Err("malformed record: no body kind".to_owned()),
        };
        if kind.as_str().eq("login") {
            match (first, second) {
                (Some(username), Some(password)) => Ok(
                    RecordBody::Login(LoginFields { username, password }),
                ),
                _ => Err("malformed record: login fields".to_owned()),
            }
        } else if kind.as_str().eq("environment") {
            match (first, second) {
                (Some(variable), Some(value)) => Ok(
                    RecordBody::Environment(EnvironmentFields { variable, value }),
                ),
                _ => Err("malformed record: environment fields".to_owned()),
            }
        } else if kind.as_str().eq("unstructured") {
            match first {
                Some(contents) => Ok(RecordBody::Unstructured(UnstructuredFields { contents })),
                None => Err("malformed record: unstructured fields".to_owned()),
            }
        } else {
            Err(join("malformed record: unknown kind: ", kind.as_str()))
        }
    }

    /// Reads the body of the record that `doc` holds.
    pub fn from_json(doc: &str) -> (body: Result<RecordBody, String>)
        ensures
            match decode_body(doc@) {
                Ok(b) => body matches Ok(made) && made@ == b,
                Err(msg) => body matches Err(m) && m@ == msg,
            },
    {
        let kind = string_at(doc, "/body/kind");
        let (first, second) = match &kind {
            None => (None, None),
            Some(k) => if k.as_str().eq("login") {
                (string_at(doc, "/body/fields/username"), string_at(doc, "/body/fields/password"))
            } else if k.as_str().eq("environment") {
                (string_at(doc, "/body/fields/variable"), string_at(doc, "/body/fields/value"))
            } else if k.as_str().eq("unstructured") {
                (string_at(doc, "/body/fields/contents"), None)
            } else {
                (None, None)
            },
        };
        RecordBody::of_fields(kind, first, second)
    }

    /// The JSON object of the body.
    pub fn to_json(&self) -> (doc: String)
        ensures
            doc@ == self@.json(),
    {
        let fields = match self {
            RecordBody::Login(l) => {
                let mut s = "{\"username\":".to_owned();
                s.append(quoted(l.username.as_str()).as_str());
                s.append(",\"password\":");
                s.append(quoted(l.password.as_str()).as_str());
                s.append("}");
                s
            },
            RecordBody::Environment(e) => {
                let mut s = "{\"variable\":".to_owned();
                s.append(quoted(e.variable.as_str()).as_str());
                s.append(",\"value\":");
                s.append(quoted(e.value.as_str()).as_str());
                s.append("}");
                s
            },
            RecordBody::Unstructured(u) => {
                let mut s = "{\"contents\":".to_owned();
                s.append(quoted(u.contents.as_str()).as_str());
                s.append("}");
                s
            },
        };
        let mut doc = "{\"kind\":\"".to_owned();
        doc.append(self.kind());
        doc.append("\",\"fields\":");
        doc.append(fields.as_str());
        doc.append("}");
        doc
    }
}

impl Record {
    /// A record made now, under `label`.
    pub fn new(label: &str, body: RecordBody) -> (record: Record)
        ensures
            record.label@ == label@,
            record.body == body,
    {
        Record::stamped(current_timestamp(), label, body)
    }

    /// A record made at the time `timestamp`, under `label`.
    pub fn stamped(timestamp: u64, label: &str, body: RecordBody) -> (record: Record)
        ensures
            record.timestamp == timestamp,
            record.label@ == label@,
            record.body == body,
    {
        Record { timestamp, label: label.to_owned(), body }
    }

    /// A login record made now.
    pub fn login(label: &str, username: &str, password: &str) -> (record: Record)
        ensures
            record.label@ == label@,
            record.body@ == (BodyView::Login { username: username@, password: password@ }),
    {
        Record::new(
            label,
            RecordBody::Login(
                LoginFields { username: username.to_owned(), password: password.to_owned() },
            ),
        )
    }

    /// An environment record made now.
    pub fn environment(label: &str, variable: &str, value: &str) -> (record: Record)
        ensures
            record.label@ == label@,
            record.body@ == (BodyView::Environment { variable: variable@, value: value@ }),
    {
        Record::new(
            label,
            RecordBody::Environment(
                EnvironmentFields { variable: variable.to_owned(), value: value.to_owned() },
            ),
        )
    }

    /// An unstructured record made now.
    pub fn unstructured(label: &str, contents: &str) -> (record: Record)
        ensures
            record.label@ == label@,
            record.body@ == (BodyView::Unstructured { contents: contents@ }),
    {
        Record::new(
            label,
            RecordBody::Unstructured(UnstructuredFields { contents: contents.to_owned() }),
        )
    }

    /// Wipes the record: the time stamp becomes 0, the label and every field
    /// of the body become empty.
    pub fn zeroize(&mut self)
        ensures
            final(self)@ == (RecordView {
                timestamp: 0,
                label: Seq::empty(),
                body: old(self)@.body.cleared(),
            }),
    {
        self.timestamp = 0;
        wipe(&mut self.label);
        self.body.zeroize();
    }

    /// Whether this record and `other` hold the same: time stamp, label
    /// and body.
    pub fn same_as(&self, other: &Record) -> (same: bool)
        ensures
            same == (self@ == other@),
    {
        self.timestamp == other.timestamp && self.label.as_str().eq(other.label.as_str())
            && self.body.same_as(&other.body)
    }

    /// The JSON document of the record.
    pub fn to_json(&self) -> (doc: String)
        ensures
            doc@ == self@.json(),
    {
        let mut doc = "{\"timestamp\":".to_owned();
        doc.append(decimal_string(self.timestamp).as_str());
        doc.append(",\"label\":");
        doc.append(quoted(self.label.as_str()).as_str());
        doc.append(",\"body\":");
        doc.append(self.body.to_json().as_str());
        doc.append("}");
        doc
    }

    /// Reads a record from its JSON document.
    ///
    /// Fails, with an error of kind `Malformed`, exactly where `doc` is not
    /// JSON or lacks a part of a record; the message then says which.
    pub fn from_json(doc: &str) -> (read: Result<Record, Error>)
        ensures
            match read {
                Ok(record) => decode_record(doc@) == Ok::<RecordView, Seq<char>>(record@),
                Err(e) => e.kind == ErrorKind::Malformed && decode_record(doc@) == Err::<
                    RecordView,
                    Seq<char>,
                >(e.message@),
            },
    {
        Record::of_parts(
            fault(doc),
            u64_at(doc, "/timestamp"),
            string_at(doc, "/label"),
            RecordBody::from_json(doc),
        )
    }

    /// The record with the parts `timestamp`, `label` and `body`, each as
    /// far as it was found in a document, where `fault` says what is wrong
    /// with the document as JSON, if anything. Fails, with an error of kind
    /// `Malformed`, exactly where something is wrong or missing; what is
    /// wrong with the JSON comes first, then the time stamp, the label and
    /// the body.
    pub fn of_parts(
        fault: Option<String>,
        timestamp: Option<u64>,
        label: Option<String>,
        body: Result<RecordBody, String>,
    ) -> (read: Result<Record, Error>)
        ensures
            match record_from(
                match fault {
                    Some(m) => Some(m@),
                    None => None,
                },
                timestamp,
                match label {
                    Some(l) => Some(l@),
                    None => None,
                },
                match body {
                    Ok(b) => Ok(b@),
                    Err(m) => Err(m@),
                },
            ) {
                Ok(record) => read matches Ok(r) && r@ == record,
                Err(msg) => read matches Err(e) && e@ == (ErrorKind::Malformed, msg),
            },
    {
        if let Some(msg) = fault {
            return Err(Error { kind: ErrorKind::Malformed, message: msg });
        }
        let timestamp = match timestamp {
            Some(t) => t,
            None => return Err(Error::new(ErrorKind::Malformed, "malformed record: no timestamp")),
        };
        let label = match label {
            Some(l) => l,
            None => return Err(Error::new(ErrorKind::Malformed, "malformed record: no label")),
        };
        match body {
            Ok(body) => Ok(Record { timestamp, label, body }),
            Err(msg) => Err(Error { kind: ErrorKind::Malformed, message: msg }),
        }
    }

    /// The record under the label `label`, all else unchanged.
    pub fn relabel(self, label: &str) -> (record: Record)
        ensures
            record@ == self@.relabeled(label@),
    {
        Record { timestamp: self.timestamp, label: label.to_owned(), body: self.body }
    }
}

} // verus!
