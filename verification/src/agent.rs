//! The authentication agent: the keys that it holds, what it answers to
//! each request, and what a client makes of the answers.
//!
//! The agent serves one client at a time. Nothing here touches a socket: the
//! caller reads and writes, and hands each event to `handle_client`.

use vstd::prelude::*;
use vstd::string::*;

use crate::backend::{unwrap_error, unwrapped, Backend, RageLib};
use crate::error::{Error, ErrorKind};
use crate::json::{fault, json_fault, json_u64_at, u64_at};
use crate::protocol::{decode_request_body, decoded, text_of, FailureKind, FailureView, Request, RequestBody,
    RequestBodyView, RequestView, Response, ResponseView, PROTOCOL_VERSION};
use crate::text::wipe;
use crate::text::{debug_quoted, decimal, decimal_string, join, join3, rust_debug};

verus! {

/// How many times the socket of a freshly launched agent is looked for.
pub const SPAWN_ATTEMPTS: u32 = 10;

/// An unwrapped key that the agent holds.
struct CachedKey {
    pubkey: String,
    keyfile: String,
    identity: String,
}

/// The state of a running agent.
pub struct Agent {
    /// The path of the socket that the agent listens on.
    agent_path: String,
    /// The keys that the agent holds, each under its public key, and no
    /// public key twice. They stand in a vector: each is wiped when the
    /// keys are flushed, and the maps that vstd specifies for text keys
    /// hand out no value to wipe.
    unwrapped_keys: Vec<CachedKey>,
    /// Whether the agent has been asked to exit.
    quitting: bool,
}

/// What an agent holds, as mathematical values: for each public key, the
/// path of the key file and the unwrapped identity; whether it has been
/// asked to exit; and the path of its socket.
pub struct AgentView {
    pub keys: Map<Seq<char>, (Seq<char>, Seq<char>)>,
    pub quitting: bool,
    pub socket: Seq<char>,
}

/// What the caller is to do next for the client at hand.
#[derive(Debug, PartialEq)]
pub enum Turn {
    /// Go on reading requests.
    Proceed,
    /// Send the response, then go on reading requests.
    Reply(Response),
    /// Send the response, then close the connection.
    Close(Response),
    /// Read the key file, hand what was read to `finish_unwrap`, send its
    /// response, then go on reading requests.
    ReadKeyfile { pubkey: String, keyfile: String, password: String },
}

/// What a turn holds, as mathematical values.
pub enum TurnView {
    Proceed,
    Reply(ResponseView),
    Close(ResponseView),
    ReadKeyfile { pubkey: Seq<char>, keyfile: Seq<char>, password: Seq<char> },
}

impl View for Turn {
    type V = TurnView;

    open spec fn view(&self) -> TurnView {
        match self {
            Turn::Proceed => TurnView::Proceed,
            Turn::Reply(r) => TurnView::Reply(r@),
            Turn::Close(r) => TurnView::Close(r@),
            Turn::ReadKeyfile { pubkey, keyfile, password } => TurnView::ReadKeyfile {
                pubkey: pubkey@,
                keyfile: keyfile@,
                password: password@,
            },
        }
    }
}

/// What happened on the connection of a client.
pub enum ClientEvent {
    /// A client connected. `peer_uid` is its effective user, where the
    /// kernel told it; `agent_uid` is the effective user of the agent.
    Connected { peer_uid: Option<u32>, agent_uid: u32 },
    /// A line was read.
    Line(String),
    /// Reading failed, with this message.
    ReadFailed(String),
}

/// What an event holds, as mathematical values.
pub enum ClientEventView {
    Connected { peer_uid: Option<u32>, agent_uid: u32 },
    Line(Seq<char>),
    ReadFailed(Seq<char>),
}

impl View for ClientEvent {
    type V = ClientEventView;

    open spec fn view(&self) -> ClientEventView {
        match self {
            ClientEvent::Connected { peer_uid, agent_uid } => ClientEventView::Connected {
                peer_uid: *peer_uid,
                agent_uid: *agent_uid,
            },
            ClientEvent::Line(l) => ClientEventView::Line(l@),
            ClientEvent::ReadFailed(m) => ClientEventView::ReadFailed(m@),
        }
    }
}

/// The path of the socket of the agent of the user `username`.
pub open spec fn socket_path(username: Seq<char>) -> Seq<char> {
    "/tmp/kbs2-agent-"@ + username
}

/// Whether a peer is let in: the kernel told its user, and it is the user
/// of the agent.
pub open spec fn authorized(peer_uid: Option<u32>, agent_uid: u32) -> bool {
    peer_uid == Some(agent_uid)
}

/// What the agent does with a request body: its next state, and the turn.
pub open spec fn handle(state: AgentView, body: RequestBodyView) -> (AgentView, TurnView) {
    match body {
        RequestBodyView::UnwrapKey(pubkey, keyfile, password) => if state.keys.contains_key(
            pubkey,
        ) {
            (
                state,
                TurnView::Reply(ResponseView::Success("OK; agent already has unwrapped key"@)),
            )
        } else {
            (state, TurnView::ReadKeyfile { pubkey, keyfile, password })
        },
        RequestBodyView::QueryUnwrappedKey(pubkey) => if state.keys.contains_key(pubkey) {
            (state, TurnView::Reply(ResponseView::Success("OK"@)))
        } else {
            (state, TurnView::Reply(ResponseView::Failure(FailureView::Query)))
        },
        RequestBodyView::GetUnwrappedKey(pubkey) => if state.keys.contains_key(pubkey) {
            (state, TurnView::Reply(ResponseView::Success(state.keys[pubkey].1)))
        } else {
            (state, TurnView::Reply(ResponseView::Failure(FailureView::Query)))
        },
        RequestBodyView::FlushKeys => (
            AgentView { keys: Map::empty(), quitting: state.quitting, socket: state.socket },
            TurnView::Reply(ResponseView::Success("OK"@)),
        ),
        RequestBodyView::Quit => (
            AgentView { keys: state.keys, quitting: true, socket: state.socket },
            TurnView::Reply(ResponseView::Success("OK"@)),
        ),
    }
}

/// What the agent does once unwrapping a key file has come to `outcome`, the
/// identity or the message of the error: its next state, and the response.
pub open spec fn conclude(
    state: AgentView,
    pubkey: Seq<char>,
    keyfile: Seq<char>,
    outcome: Result<Seq<char>, Seq<char>>,
) -> (AgentView, ResponseView) {
    if state.keys.contains_key(pubkey) {
        (state, ResponseView::Success("OK; agent already has unwrapped key"@))
    } else {
        match outcome {
            Ok(identity) => (
                AgentView {
                    keys: state.keys.insert(pubkey, (keyfile, identity)),
                    quitting: state.quitting,
                    socket: state.socket,
                },
                ResponseView::Success("OK; unwrapped key ready"@),
            ),
            Err(msg) => (state, ResponseView::Failure(FailureView::Unwrap(msg))),
        }
    }
}

/// What the agent does with a request: a request of another protocol
/// version is turned away whatever it asks.
pub open spec fn handle_request(state: AgentView, request: RequestView) -> (AgentView, TurnView) {
    if request.protocol != PROTOCOL_VERSION {
        (
            state,
            TurnView::Close(ResponseView::Failure(FailureView::VersionMismatch(PROTOCOL_VERSION))),
        )
    } else {
        handle(state, request.body)
    }
}

/// What the agent does with the parts of a request as far as they were
/// found in a line, where `fault` says what is wrong with the line as JSON,
/// if anything. The protocol version is looked at before the body: a
/// request of another version is turned away whatever its body holds.
pub open spec fn handle_parts(
    state: AgentView,
    fault: Option<Seq<char>>,
    protocol: Option<u64>,
    body: Result<RequestBodyView, Seq<char>>,
) -> (AgentView, TurnView) {
    match fault {
        Some(msg) => (state, TurnView::Close(ResponseView::Failure(FailureView::Malformed(msg)))),
        None => match protocol {
            None => (
                state,
                TurnView::Close(
                    ResponseView::Failure(
                        FailureView::Malformed("malformed request: no protocol"@),
                    ),
                ),
            ),
            Some(protocol) => if protocol > u32::MAX {
                (
                    state,
                    TurnView::Close(
                        ResponseView::Failure(
                            FailureView::Malformed("malformed request: protocol out of range"@),
                        ),
                    ),
                )
            } else if protocol != PROTOCOL_VERSION {
                (
                    state,
                    TurnView::Close(
                        ResponseView::Failure(FailureView::VersionMismatch(PROTOCOL_VERSION)),
                    ),
                )
            } else {
                match body {
                    Err(msg) => (
                        state,
                        TurnView::Close(ResponseView::Failure(FailureView::Malformed(msg))),
                    ),
                    Ok(body) => handle(state, body),
                }
            },
        },
    }
}

/// What the agent does with a line that a client sent.
pub open spec fn handle_line(state: AgentView, line: Seq<char>) -> (AgentView, TurnView) {
    handle_parts(
        state,
        json_fault(line),
        json_u64_at(line, "/protocol"@),
        decode_request_body(line),
    )
}

/// What the agent does with an event on the connection of a client.
pub open spec fn handle_event(state: AgentView, event: ClientEventView) -> (AgentView, TurnView) {
    match event {
        ClientEventView::Connected { peer_uid, agent_uid } => if authorized(peer_uid, agent_uid) {
            (state, TurnView::Proceed)
        } else {
            (state, TurnView::Close(ResponseView::Failure(FailureView::Auth)))
        },
        ClientEventView::Line(line) => handle_line(state, line),
        ClientEventView::ReadFailed(msg) => (
            state,
            TurnView::Close(ResponseView::Failure(FailureView::Io(msg))),
        ),
    }
}

/// The keys of a list of entries, each under its public key.
spec fn keys_of(entries: Seq<CachedKey>) -> Map<Seq<char>, (Seq<char>, Seq<char>)>
    decreases entries.len(),
{
    if entries.len() == 0 {
        Map::empty()
    } else {
        keys_of(entries.drop_last()).insert(
            entries.last().pubkey@,
            (entries.last().keyfile@, entries.last().identity@),
        )
    }
}

/// Whether no two entries stand under the same public key.
spec fn distinct(entries: Seq<CachedKey>) -> bool {
    forall|i: int, j: int| 0 <= i < j < entries.len() ==> entries[i].pubkey@ != entries[j].pubkey@
}

proof fn lemma_keys_of(entries: Seq<CachedKey>)
    requires
        distinct(entries),
    ensures
        forall|k: Seq<char>| #[trigger]
            keys_of(entries).contains_key(k) <==> exists|i: int|
                0 <= i < entries.len() && #[trigger] entries[i].pubkey@ == k,
        forall|i: int|
            0 <= i < entries.len() ==> keys_of(entries).contains_key(#[trigger] entries[i].pubkey@)
                && keys_of(entries)[entries[i].pubkey@] == (
                entries[i].keyfile@,
                entries[i].identity@,
            ),
    decreases entries.len(),
{
    if entries.len() > 0 {
        let front = entries.drop_last();
        lemma_keys_of(front);
        assert forall|k: Seq<char>| #[trigger]
            keys_of(entries).contains_key(k) <==> exists|i: int|
                0 <= i < entries.len() && #[trigger] entries[i].pubkey@ == k by {
            if keys_of(entries).contains_key(k) {
                if k == entries.last().pubkey@ {
                    assert(entries[entries.len() - 1].pubkey@ == k);
                } else {
                    assert(keys_of(front).contains_key(k));
                    let i = choose|i: int| 0 <= i < front.len() && #[trigger] front[i].pubkey@ == k;
                    assert(entries[i].pubkey@ == k);
                }
            }
            if exists|i: int| 0 <= i < entries.len() && #[trigger] entries[i].pubkey@ == k {
                let i = choose|i: int| 0 <= i < entries.len() && #[trigger] entries[i].pubkey@ == k;
                if i < front.len() {
                    assert(front[i].pubkey@ == k);
                }
            }
        }
        assert forall|i: int| 0 <= i < entries.len() implies keys_of(entries).contains_key(
            #[trigger] entries[i].pubkey@,
        ) && keys_of(entries)[entries[i].pubkey@] == (entries[i].keyfile@, entries[i].identity@) by {
            if i < front.len() {
                assert(front[i].pubkey@ == entries[i].pubkey@);
                assert(entries[i].pubkey@ != entries[entries.len() - 1].pubkey@);
            }
        }
    }
}

proof fn lemma_keys_count(entries: Seq<CachedKey>)
    requires
        distinct(entries),
    ensures
        keys_of(entries).dom().finite(),
        keys_of(entries).dom().len() == entries.len(),
    decreases entries.len(),
{
    if entries.len() == 0 {
        assert(keys_of(entries).dom() =~= Set::<Seq<char>>::empty());
    } else {
        let front = entries.drop_last();
        let last = entries.last().pubkey@;
        lemma_keys_count(front);
        lemma_keys_of(front);
        assert(!keys_of(front).contains_key(last)) by {
            if keys_of(front).contains_key(last) {
                let i = choose|i: int| 0 <= i < front.len() && #[trigger] front[i].pubkey@ == last;
                assert(entries[i].pubkey@ == entries[entries.len() - 1].pubkey@);
            }
        }
        assert(keys_of(entries).dom() =~= keys_of(front).dom().insert(last));
    }
}

impl View for Agent {
    type V = AgentView;

    closed spec fn view(&self) -> AgentView {
        AgentView {
            keys: keys_of(self.unwrapped_keys@),
            quitting: self.quitting,
            socket: self.agent_path@,
        }
    }
}

impl Agent {
    #[verifier::type_invariant]
    spec fn well_formed(self) -> bool {
        distinct(self.unwrapped_keys@)
    }

    /// The path of the socket that this agent listens on.
    pub open spec fn socket(&self) -> Seq<char> {
        self@.socket
    }

    /// The path of the socket of the agent of `username`.
    pub fn path_for(username: &str) -> (path: String)
        ensures
            path@ == socket_path(username@),
    {
        join("/tmp/kbs2-agent-", username)
    }

    /// The path of the socket of the agent of the current user.
    pub fn path() -> (path: String)
        ensures
            exists|username: Seq<char>| path@ == #[trigger] socket_path(username),
    {
        let username = current_username();
        let path = Self::path_for(username.as_str());
        assert(path@ == socket_path(username@));
        path
    }

    /// A new agent for the current user, which holds no key and listens on
    /// the socket of that user. Fails, with an error of kind `Io`, exactly
    /// where the socket is there already: an agent is running, or one did not
    /// exit cleanly.
    pub fn new(socket_exists: bool) -> (made: Result<Agent, Error>)
        ensures
            socket_exists ==> (made matches Err(e) && e@ == (
                ErrorKind::Io,
                "an agent is already running or didn't exit cleanly"@,
            )),
            !socket_exists ==> made is Ok && exists|username: Seq<char>|
                made->Ok_0@ == (AgentView {
                    keys: Map::empty(),
                    quitting: false,
                    socket: #[trigger] socket_path(username),
                }),
    {
        Self::at(Self::path(), socket_exists)
    }

    /// A new agent that listens on the socket at `path`, and holds no key.
    /// Fails, with an error of kind `Io`, exactly where the socket is there
    /// already.
    pub fn at(path: String, socket_exists: bool) -> (made: Result<Agent, Error>)
        ensures
            socket_exists ==> (made matches Err(e) && e@ == (
                ErrorKind::Io,
                "an agent is already running or didn't exit cleanly"@,
            )),
            !socket_exists ==> (made matches Ok(agent) && agent@ == (AgentView {
                keys: Map::empty(),
                quitting: false,
                socket: path@,
            })),
    {
        if socket_exists {
            return Err(
                Error::new(ErrorKind::Io, "an agent is already running or didn't exit cleanly"),
            );
        }
        Ok(Agent { agent_path: path, unwrapped_keys: Vec::new(), quitting: false })
    }

    /// The path of the socket that this agent listens on.
    pub fn socket_path(&self) -> (path: &str)
        ensures
            path@ == self.socket(),
    {
        self.agent_path.as_str()
    }

    /// Whether the agent has been asked to exit: where it has, the caller
    /// accepts no further client.
    pub fn quitting(&self) -> (q: bool)
        ensures
            q == self@.quitting,
    {
        self.quitting
    }

    /// How many keys the agent holds: one for each public key that it
    /// holds a key for.
    pub fn held(&self) -> (count: usize)
        ensures
            self@.keys.dom().finite(),
            count == self@.keys.dom().len(),
    {
        proof {
            use_type_invariant(self);
            lemma_keys_count(self.unwrapped_keys@);
        }
        self.unwrapped_keys.len()
    }

    /// Whether a client is let in.
    pub fn auth_client(&self, peer_uid: Option<u32>, agent_uid: u32) -> (ok: bool)
        ensures
            ok == authorized(peer_uid, agent_uid),
    {
        match peer_uid {
            Some(uid) => uid == agent_uid,
            None => false,
        }
    }

    /// Where the key for `pubkey` stands, if it is held.
    fn find(&self, pubkey: &str) -> (at: Option<usize>)
        ensures
            match at {
                Some(i) => i < self.unwrapped_keys.len() && self.unwrapped_keys[i as int].pubkey@
                    == pubkey@ && self@.keys.contains_key(pubkey@) && self@.keys[pubkey@] == (
                    self.unwrapped_keys[i as int].keyfile@,
                    self.unwrapped_keys[i as int].identity@,
                ),
                None => !self@.keys.contains_key(pubkey@) && forall|i: int|
                    0 <= i < self.unwrapped_keys.len() ==> self.unwrapped_keys[i].pubkey@
                        != pubkey@,
            },
    {
        proof {
            use_type_invariant(self);
            lemma_keys_of(self.unwrapped_keys@);
        }
        let mut i: usize = 0;
        while i < self.unwrapped_keys.len()
            invariant
                i <= self.unwrapped_keys.len(),
                distinct(self.unwrapped_keys@),
                forall|j: int| 0 <= j < i ==> self.unwrapped_keys[j].pubkey@ != pubkey@,
            decreases self.unwrapped_keys.len() - i,
        {
            if self.unwrapped_keys[i].pubkey.as_str().eq(pubkey) {
                proof {
                    lemma_keys_of(self.unwrapped_keys@);
                }
                return Some(i);
            }
            i += 1;
        }
        None
    }

    /// Wipes and forgets every key.
    fn flush(&mut self)
        ensures
            final(self)@ == (AgentView {
                keys: Map::empty(),
                quitting: old(self)@.quitting,
                socket: old(self)@.socket,
            }),
            final(self).socket() == old(self).socket(),
    {
        let mut keys: Vec<CachedKey> = Vec::new();
        std::mem::swap(&mut self.unwrapped_keys, &mut keys);
        while keys.len() > 0
            decreases keys.len(),
        {
            let mut entry = keys.pop().unwrap();
            wipe(&mut entry.identity);
        }
    }

    /// Answers one request body.
    ///
    /// A request to unwrap a key that is not held yet is not answered here:
    /// the turn tells the caller to read the key file, and `finish_unwrap`
    /// gives the answer.
    pub fn handle_request_body(&mut self, body: RequestBody) -> (turn: Turn)
        ensures
            (final(self)@, turn@) == handle(old(self)@, body@),
            final(self).socket() == old(self).socket(),
    {
        match body {
            RequestBody::UnwrapKey(pubkey, keyfile, password) => {
                if self.find(pubkey.as_str()).is_some() {
                    let mut password = password;
                    wipe(&mut password);
                    Turn::Reply(Response::Success("OK; agent already has unwrapped key".to_owned()))
                } else {
                    Turn::ReadKeyfile { pubkey, keyfile, password }
                }
            },
            RequestBody::QueryUnwrappedKey(pubkey) => {
                if self.find(pubkey.as_str()).is_some() {
                    Turn::Reply(Response::Success("OK".to_owned()))
                } else {
                    Turn::Reply(Response::Failure(FailureKind::Query))
                }
            },
            RequestBody::GetUnwrappedKey(pubkey) => {
                match self.find(pubkey.as_str()) {
                    Some(i) => Turn::Reply(
                        Response::Success(self.unwrapped_keys[i].identity.clone()),
                    ),
                    None => Turn::Reply(Response::Failure(FailureKind::Query)),
                }
            },
            RequestBody::FlushKeys => {
                self.flush();
                Turn::Reply(Response::Success("OK".to_owned()))
            },
            RequestBody::Quit => {
                proof {
                    use_type_invariant(&*self);
                }
                self.quitting = true;
                Turn::Reply(Response::Success("OK".to_owned()))
            },
        }
    }

    /// Takes in what unwrapping the key file `keyfile` came to, and answers
    /// the request that asked for it: the key is kept under `pubkey` where
    /// there is one, and the cache is left as it is where there is none.
    pub fn conclude_unwrap(
        &mut self,
        pubkey: String,
        keyfile: String,
        outcome: Result<String, Error>,
    ) -> (response: Response)
        ensures
            (final(self)@, response@) == conclude(
                old(self)@,
                pubkey@,
                keyfile@,
                match outcome {
                    Ok(identity) => Ok(identity@),
                    Err(e) => Err(e.message@),
                },
            ),
            final(self).socket() == old(self).socket(),
    {
        if self.find(pubkey.as_str()).is_some() {
            if let Ok(mut identity) = outcome {
                wipe(&mut identity);
            }
            return Response::Success("OK; agent already has unwrapped key".to_owned());
        }
        match outcome {
            Ok(identity) => {
                proof {
                    use_type_invariant(&*self);
                }
                let entry = CachedKey { pubkey, keyfile, identity };
                let mut keys: Vec<CachedKey> = Vec::new();
                std::mem::swap(&mut self.unwrapped_keys, &mut keys);
                proof {
                    assert(keys@.push(entry).drop_last() =~= keys@);
                }
                keys.push(entry);
                self.unwrapped_keys = keys;
                Response::Success("OK; unwrapped key ready".to_owned())
            },
            Err(e) => Response::Failure(FailureKind::Unwrap(e.message)),
        }
    }

    /// Unwraps the key file that was read for a request, and answers the
    /// request. `contents` is what the file holds, or the message of the
    /// error that reading it gave.
    ///
    /// The key is kept, under `pubkey`, exactly where it was not held yet
    /// and `contents` unwraps with `password`; in every other case the cache
    /// is left as it is. Where the file could not be read or does not
    /// unwrap, the response carries the message of that error.
    pub fn finish_unwrap(
        &mut self,
        pubkey: String,
        keyfile: String,
        password: String,
        contents: Result<Vec<u8>, String>,
    ) -> (response: Response)
        ensures
            final(self).socket() == old(self).socket(),
            if old(self)@.keys.contains_key(pubkey@) {
                final(self)@ == old(self)@ && response@ == ResponseView::Success(
                    "OK; agent already has unwrapped key"@,
                )
            } else {
                match contents {
                    Ok(bytes) => match unwrapped(password@, bytes@) {
                        Ok(identity) => (final(self)@, response@) == conclude(
                            old(self)@,
                            pubkey@,
                            keyfile@,
                            Ok(identity),
                        ),
                        Err(_) => final(self)@ == old(self)@ && exists|e: (ErrorKind, Seq<char>)|
                            #[trigger] unwrap_error(password@, bytes@, e) && response@
                                == ResponseView::Failure(FailureView::Unwrap(e.1)),
                    },
                    Err(why) => final(self)@ == old(self)@ && response@ == ResponseView::Failure(
                        FailureView::Unwrap(why@),
                    ),
                }
            },
    {
        let mut password = password;
        let outcome = match contents {
            Ok(bytes) => RageLib::unwrap_keyfile(&bytes, password.as_str()),
            Err(msg) => Err(Error { kind: ErrorKind::Io, message: msg }),
        };
        wipe(&mut password);
        self.conclude_unwrap(pubkey, keyfile, outcome)
    }

    /// Answers one request: a request of another protocol version is turned
    /// away, whatever it asks, and the connection is closed.
    pub fn handle_request(&mut self, request: Request) -> (turn: Turn)
        ensures
            (final(self)@, turn@) == handle_request(old(self)@, request@),
            final(self).socket() == old(self).socket(),
    {
        if request.protocol != PROTOCOL_VERSION {
            return Turn::Close(Response::Failure(FailureKind::VersionMismatch(PROTOCOL_VERSION)));
        }
        self.handle_request_body(request.body)
    }

    /// Takes in one event on the connection of the client at hand, and says
    /// what to do next.
    ///
    /// A peer that is not the user of the agent gets one response, `Auth`,
    /// and is closed. A line that is not JSON, or not a request, gets
    /// `Malformed`; a request of another protocol version gets
    /// `VersionMismatch`, whatever it asks; a failure to read gets `Io`. After
    /// each of these the connection is closed, and the agent is as it was.
    pub fn handle_client(&mut self, event: ClientEvent) -> (turn: Turn)
        ensures
            (final(self)@, turn@) == handle_event(old(self)@, event@),
            final(self).socket() == old(self).socket(),
    {
        match event {
            ClientEvent::Connected { peer_uid, agent_uid } => {
                if self.auth_client(peer_uid, agent_uid) {
                    Turn::Proceed
                } else {
                    Turn::Close(Response::Failure(FailureKind::Auth))
                }
            },
            ClientEvent::ReadFailed(msg) => Turn::Close(Response::Failure(FailureKind::Io(msg))),
            ClientEvent::Line(line) => self.handle_parsed(
                fault(line.as_str()),
                u64_at(line.as_str(), "/protocol"),
                RequestBody::from_json(line.as_str()),
            ),
        }
    }

    /// Takes in the parts of a request as far as they were found in a
    /// line, where `fault` says what is wrong with the line as JSON, if
    /// anything, and says what to do next.
    ///
    /// What is wrong with the JSON comes first, then a protocol version
    /// that is missing or above 4294967295, each answered with `Malformed`;
    /// then a protocol version other than that of the agent, answered with
    /// `VersionMismatch` whatever the body holds; then what is wrong with
    /// the body. After each of these the connection is closed, and the agent
    /// is as it was.
    pub fn handle_parsed(
        &mut self,
        fault: Option<String>,
        protocol: Option<u64>,
        body: Result<RequestBody, String>,
    ) -> (turn: Turn)
        ensures
            (final(self)@, turn@) == handle_parts(
                old(self)@,
                text_of(fault),
                protocol,
                decoded(body),
            ),
    {
        if let Some(msg) = fault {
            return Turn::Close(Response::Failure(FailureKind::Malformed(msg)));
        }
        let protocol = match protocol {
            Some(p) => p,
            None => {
                return Turn::Close(
                    Response::Failure(
                        FailureKind::Malformed("malformed request: no protocol".to_owned()),
                    ),
                );
            },
        };
        if protocol > 0xffff_ffff {
            return Turn::Close(
                Response::Failure(
                    FailureKind::Malformed("malformed request: protocol out of range".to_owned()),
                ),
            );
        }
        if protocol != 1 {
            return Turn::Close(Response::Failure(FailureKind::VersionMismatch(PROTOCOL_VERSION)));
        }
        match body {
            Err(msg) => Turn::Close(Response::Failure(FailureKind::Malformed(msg))),
            Ok(body) => self.handle_request_body(body),
        }
    }
}

/// The name of the current user.
///
/// Trusted: calls `whoami::username`. Nothing is claimed of the result: it
/// is read from the system.
#[verifier::external_body]
fn current_username() -> String {
    whoami::username()
}


/// What is to be done about an agent before a session starts.
#[derive(Debug, Clone, Copy, PartialEq, Eq, Structural)]
pub enum Spawn {
    /// An agent seems to be running: nothing is to be done.
    Running,
    /// The current executable is to be launched as an agent, with its
    /// standard streams closed, and its socket waited for.
    Launch,
}

impl Agent {
    /// Decides whether an agent is to be launched.
    ///
    /// Nothing is launched where the socket is there. Else the launch is
    /// refused, with an error of kind `Usage`, exactly where the process runs
    /// as root or its real and effective users differ.
    pub fn spawn(socket_exists: bool, uid: u32, euid: u32) -> (plan: Result<Spawn, Error>)
        ensures
            socket_exists ==> plan == Ok::<Spawn, Error>(Spawn::Running),
            !socket_exists && uid != 0 && uid == euid ==> plan == Ok::<Spawn, Error>(Spawn::Launch),
            !socket_exists && (uid == 0 || uid != euid) ==> (plan matches Err(e) && e@ == (
                ErrorKind::Usage,
                "unusual UID or UID/EUID pair found, refusing to spawn"@,
            )),
    {
        if socket_exists {
            return Ok(Spawn::Running);
        }
        if uid == 0 || uid != euid {
            return Err(
                Error::new(ErrorKind::Usage, "unusual UID or UID/EUID pair found, refusing to spawn"),
            );
        }
        Ok(Spawn::Launch)
    }

    /// Decides, after the socket of a launched agent was looked for once
    /// more, whether to go on waiting. `attempts` counts the looks so far,
    /// this one included.
    ///
    /// Gives `true` where the socket is there, `false` where it is to be
    /// looked for again after a pause, and fails with an error of kind
    /// `Unreachable` where it is not there after 10 looks.
    pub fn spawn_wait(attempts: u32, socket_exists: bool) -> (ready: Result<bool, Error>)
        ensures
            socket_exists ==> ready == Ok::<bool, Error>(true),
            !socket_exists && attempts < SPAWN_ATTEMPTS ==> ready == Ok::<bool, Error>(false),
            !socket_exists && attempts >= SPAWN_ATTEMPTS ==> (ready matches Err(e) && e@ == (
                ErrorKind::Unreachable,
                "agent spawn timeout exhausted"@,
            )),
    {
        if socket_exists {
            Ok(true)
        } else if attempts < SPAWN_ATTEMPTS {
            Ok(false)
        } else {
            Err(Error::new(ErrorKind::Unreachable, "agent spawn timeout exhausted"))
        }
    }
}

impl FailureView {
    /// The failure as `Debug` prints it.
    pub open spec fn debug(self) -> Seq<char> {
        match self {
            FailureView::Auth => "Auth"@,
            FailureView::Io(m) => "Io("@ + rust_debug(m) + ")"@,
            FailureView::Malformed(m) => "Malformed("@ + rust_debug(m) + ")"@,
            FailureView::Unwrap(m) => "Unwrap("@ + rust_debug(m) + ")"@,
            FailureView::VersionMismatch(v) => "VersionMismatch("@ + decimal(v as nat) + ")"@,
            FailureView::Query => "Query"@,
        }
    }

    /// The kind of error that the failure is to a client.
    pub open spec fn error_kind(self) -> ErrorKind {
        match self {
            FailureView::Auth => ErrorKind::Auth,
            FailureView::Io(_) => ErrorKind::Io,
            FailureView::Malformed(_) => ErrorKind::Malformed,
            FailureView::Unwrap(_) => ErrorKind::Decrypt,
            FailureView::VersionMismatch(_) => ErrorKind::VersionMismatch,
            FailureView::Query => ErrorKind::Query,
        }
    }
}

/// The error that a client reports for a failure: `context`, then the
/// failure as `Debug` prints it.
pub fn failure_error(context: &str, failure: &FailureKind) -> (err: Error)
    ensures
        err@ == (failure@.error_kind(), context@ + failure@.debug()),
{
    let (kind, debug) = match failure {
        FailureKind::Auth => (ErrorKind::Auth, "Auth".to_owned()),
        FailureKind::Io(m) => (ErrorKind::Io, join3("Io(", debug_quoted(m.as_str()).as_str(), ")")),
        FailureKind::Malformed(m) => (
            ErrorKind::Malformed,
            join3("Malformed(", debug_quoted(m.as_str()).as_str(), ")"),
        ),
        FailureKind::Unwrap(m) => (
            ErrorKind::Decrypt,
            join3("Unwrap(", debug_quoted(m.as_str()).as_str(), ")"),
        ),
        FailureKind::VersionMismatch(v) => (
            ErrorKind::VersionMismatch,
            join3("VersionMismatch(", decimal_string(*v as u64).as_str(), ")"),
        ),
        FailureKind::Query => (ErrorKind::Query, "Query".to_owned()),
    };
    Error { kind, message: join(context, debug.as_str()) }
}

/// The client side of the agent protocol: the requests to send, and what to
/// make of the responses.
#[derive(Debug)]
pub struct Client {
    protocol: u32,
}

impl Client {
    /// The protocol version that this client speaks.
    pub closed spec fn protocol(&self) -> u32 {
        self.protocol
    }

    /// A client, once the connection to the agent was tried. Fails, with an
    /// error of kind `Unreachable`, exactly where the connection failed.
    pub fn new(connected: Result<(), String>) -> (client: Result<Client, Error>)
        ensures
            connected is Ok ==> (client matches Ok(c) && c.protocol() == PROTOCOL_VERSION),
            connected is Err ==> (client matches Err(e) && e@ == (
                ErrorKind::Unreachable,
                "failed to connect to agent; is it running?"@,
            )),
    {
        match connected {
            Ok(()) => Ok(Client { protocol: PROTOCOL_VERSION }),
            Err(_) => Err(
                Error::new(ErrorKind::Unreachable, "failed to connect to agent; is it running?"),
            ),
        }
    }

    /// The request that carries `body`.
    pub fn request(&self, body: RequestBody) -> (request: Request)
        ensures
            request@ == (RequestView { protocol: self.protocol(), body: body@ }),
    {
        Request { protocol: self.protocol, body }
    }

    /// The request to unwrap `keyfile` with `password` and keep the key
    /// under `pubkey`.
    pub fn add_key(&self, pubkey: &str, keyfile: &str, password: &str) -> (request: Request)
        ensures
            request@ == (RequestView {
                protocol: self.protocol(),
                body: RequestBodyView::UnwrapKey(pubkey@, keyfile@, password@),
            }),
    {
        self.request(
            RequestBody::UnwrapKey(pubkey.to_owned(), keyfile.to_owned(), password.to_owned()),
        )
    }

    /// What came of `add_key`: nothing on success, the failure as an error.
    pub fn add_key_reply(response: Response) -> (added: Result<(), Error>)
        ensures
            match response@ {
                ResponseView::Success(_) => added is Ok,
                ResponseView::Failure(k) => added matches Err(e) && e@ == (
                    k.error_kind(),
                    "adding key to agent failed: "@ + k.debug(),
                ),
            },
    {
        match response {
            Response::Success(_) => Ok(()),
            Response::Failure(k) => Err(failure_error("adding key to agent failed: ", &k)),
        }
    }

    /// The request to say whether the key for `pubkey` is held.
    pub fn query_key(&self, pubkey: &str) -> (request: Request)
        ensures
            request@ == (RequestView {
                protocol: self.protocol(),
                body: RequestBodyView::QueryUnwrappedKey(pubkey@),
            }),
    {
        self.request(RequestBody::QueryUnwrappedKey(pubkey.to_owned()))
    }

    /// What came of `query_key`: `true` on success, `false` where the agent
    /// holds no such key, any other failure as an error.
    pub fn query_key_reply(response: Response) -> (held: Result<bool, Error>)
        ensures
            match response@ {
                ResponseView::Success(_) => held == Ok::<bool, Error>(true),
                ResponseView::Failure(FailureView::Query) => held == Ok::<bool, Error>(false),
                ResponseView::Failure(k) => held matches Err(e) && e@ == (
                    k.error_kind(),
                    "querying key from agent failed: "@ + k.debug(),
                ),
            },
    {
        match response {
            Response::Success(_) => Ok(true),
            Response::Failure(FailureKind::Query) => Ok(false),
            Response::Failure(k) => Err(failure_error("querying key from agent failed: ", &k)),
        }
    }

    /// The request to hand out the key for `pubkey`.
    pub fn get_key(&self, pubkey: &str) -> (request: Request)
        ensures
            request@ == (RequestView {
                protocol: self.protocol(),
                body: RequestBodyView::GetUnwrappedKey(pubkey@),
            }),
    {
        self.request(RequestBody::GetUnwrappedKey(pubkey.to_owned()))
    }

    /// What came of `get_key`: the key on success, the failure as an error.
    pub fn get_key_reply(response: Response) -> (key: Result<String, Error>)
        ensures
            match response@ {
                ResponseView::Success(identity) => key matches Ok(k) && k@ == identity,
                ResponseView::Failure(k) => key matches Err(e) && e@ == (
                    k.error_kind(),
                    "retrieving unwrapped key from agent failed: "@ + k.debug(),
                ),
            },
    {
        match response {
            Response::Success(key) => Ok(key),
            Response::Failure(k) => Err(
                failure_error("retrieving unwrapped key from agent failed: ", &k),
            ),
        }
    }

    /// The request to forget all keys.
    pub fn flush_keys(&self) -> (request: Request)
        ensures
            request@ == (RequestView { protocol: self.protocol(), body: RequestBodyView::FlushKeys }),
    {
        self.request(RequestBody::FlushKeys)
    }

    /// The request to exit. The client is used up.
    pub fn quit_agent(self) -> (request: Request)
        ensures
            request@ == (RequestView { protocol: self.protocol(), body: RequestBodyView::Quit }),
    {
        self.request(RequestBody::Quit)
    }
}

/// The state of the agent after a request to unwrap the key of `pubkey`,
/// where reading and unwrapping the key file, if that was asked for, gave
/// `identity`.
pub open spec fn after_unwrap(
    state: AgentView,
    pubkey: Seq<char>,
    keyfile: Seq<char>,
    password: Seq<char>,
    identity: Seq<char>,
) -> AgentView {
    let (next, turn) = handle(state, RequestBodyView::UnwrapKey(pubkey, keyfile, password));
    if turn is ReadKeyfile {
        conclude(next, pubkey, keyfile, Ok(identity)).0
    } else {
        next
    }
}

/// The cache is idempotent: after one request to unwrap the key of a public
/// key has succeeded, a second one for the same public key succeeds without
/// the key file being read again, and the cache holds its one entry for that
/// public key as before.
pub proof fn lemma_unwrap_key_idempotent(
    state: AgentView,
    pubkey: Seq<char>,
    keyfile: Seq<char>,
    password: Seq<char>,
    identity: Seq<char>,
    keyfile_again: Seq<char>,
    password_again: Seq<char>,
)
    ensures
        ({
            let once = after_unwrap(state, pubkey, keyfile, password, identity);
            let again = handle(
                once,
                RequestBodyView::UnwrapKey(pubkey, keyfile_again, password_again),
            );
            &&& once.keys.dom() == state.keys.dom().insert(pubkey)
            &&& again.0 == once
            &&& again.1 == TurnView::Reply(
                ResponseView::Success("OK; agent already has unwrapped key"@),
            )
        }),
{
    let once = after_unwrap(state, pubkey, keyfile, password, identity);
    assert(once.keys.dom() =~= state.keys.dom().insert(pubkey));
}

/// A peer that is not the user of the agent gets `Auth` as the one response,
/// the connection is closed, and the agent is as it was.
pub proof fn lemma_stranger_turned_away(state: AgentView, peer_uid: Option<u32>, agent_uid: u32)
    requires
        peer_uid != Some(agent_uid),
    ensures
        handle_event(state, ClientEventView::Connected { peer_uid, agent_uid }) == (
            state,
            TurnView::Close(ResponseView::Failure(FailureView::Auth)),
        ),
{
}

/// A request of another protocol version gets `VersionMismatch` with the
/// version of the agent, whatever its body; the connection is closed, and
/// the agent is as it was. So does a line of JSON that gives another
/// protocol version of up to 4294967295, whatever else it holds.
pub proof fn lemma_version_gate(state: AgentView, request: RequestView, line: Seq<char>)
    ensures
        request.protocol != PROTOCOL_VERSION ==> handle_request(state, request) == (
            state,
            TurnView::Close(ResponseView::Failure(FailureView::VersionMismatch(PROTOCOL_VERSION))),
        ),
        json_fault(line) is None && json_u64_at(line, "/protocol"@) is Some && json_u64_at(
            line,
            "/protocol"@,
        )->0 <= u32::MAX && json_u64_at(line, "/protocol"@) != Some(PROTOCOL_VERSION as u64)
            ==> handle_line(state, line) == (
            state,
            TurnView::Close(ResponseView::Failure(FailureView::VersionMismatch(PROTOCOL_VERSION))),
        ),
{
}

} // verus!
