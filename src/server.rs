use vstd::prelude::*;
use vstd::utf8::*;

use crate::codec::{
    blank_token, blank_token_bytes, correlated_frame, encode_correlated_payload, is_identity,
    is_token, read_uuid, text_bytes, text_to_bytes, REQUEST_ALL_NOTES_IN_THREAD,
    REQUEST_ALL_NOTES_IN_TREE, REQUEST_NOTE_UPDATES_IN_THREAD, REQUEST_NOTE_UPDATES_IN_TREE,
    REQUEST_THREAD_UPDATES, SYNC_ALLOWED, SYNC_FAILED, SYNC_REJECTED, SYNC_SUCCESS, TOKEN_LEN,
};
use crate::error::Error;

verus! {

/// Parameter of the permission query: the peer asking to synchronize.
pub struct RequestParamSyncPermission {
    pub uuid: String,
}

/// Parameter of the thread-updates query.
pub struct RequestParamThreadUpdates {
    pub uuid: String,
    pub updated_end: String,
}

/// Parameter of the query for every note in a thread.
pub struct RequestParamAllNotesInThread {
    pub thread_id: String,
}

/// Parameter of the query for every note under a parent note.
pub struct RequestParamAllNotesInTree {
    pub parent_id: String,
}

/// Parameter of the query for note updates in a thread.
pub struct RequestParamNoteUpdatesInThread {
    pub uuid: String,
    pub thread_id: String,
    pub updated_end: String,
}

/// Parameter of the query for note updates under a parent note.
pub struct RequestParamNoteUpdatesInTree {
    pub uuid: String,
    pub parent_id: String,
    pub updated_end: String,
}

/// Parameter of the request to record the time of a completed synchronization.
pub struct RequestParamUpdateSyncedAt {
    pub uuid: String,
    pub updated_end: String,
}

/// A call into the Data Provider, made through its bridge slot.
pub enum Query {
    MyIdentity,
    SyncPermission(RequestParamSyncPermission),
    Now,
    ThreadUpdates(RequestParamThreadUpdates),
    AllNotesInThread(RequestParamAllNotesInThread),
    AllNotesInTree(RequestParamAllNotesInTree),
    NoteUpdatesInThread(RequestParamNoteUpdatesInThread),
    NoteUpdatesInTree(RequestParamNoteUpdatesInTree),
    UpdateSyncedAt(RequestParamUpdateSyncedAt),
}

/// A Data Provider call, over texts.
pub enum QueryModel {
    MyIdentity,
    SyncPermission { uuid: Seq<char> },
    Now,
    ThreadUpdates { uuid: Seq<char>, updated_end: Seq<char> },
    AllNotesInThread { thread_id: Seq<char> },
    AllNotesInTree { parent_id: Seq<char> },
    NoteUpdatesInThread { uuid: Seq<char>, thread_id: Seq<char>, updated_end: Seq<char> },
    NoteUpdatesInTree { uuid: Seq<char>, parent_id: Seq<char>, updated_end: Seq<char> },
    UpdateSyncedAt { uuid: Seq<char>, updated_end: Seq<char> },
}

impl View for Query {
    type V = QueryModel;

    open spec fn view(&self) -> QueryModel {
        match self {
            Query::MyIdentity => QueryModel::MyIdentity,
            Query::SyncPermission(p) => QueryModel::SyncPermission { uuid: p.uuid@ },
            Query::Now => QueryModel::Now,
            Query::ThreadUpdates(p) => QueryModel::ThreadUpdates {
                uuid: p.uuid@,
                updated_end: p.updated_end@,
            },
            Query::AllNotesInThread(p) => QueryModel::AllNotesInThread { thread_id: p.thread_id@ },
            Query::AllNotesInTree(p) => QueryModel::AllNotesInTree { parent_id: p.parent_id@ },
            Query::NoteUpdatesInThread(p) => QueryModel::NoteUpdatesInThread {
                uuid: p.uuid@,
                thread_id: p.thread_id@,
                updated_end: p.updated_end@,
            },
            Query::NoteUpdatesInTree(p) => QueryModel::NoteUpdatesInTree {
                uuid: p.uuid@,
                parent_id: p.parent_id@,
                updated_end: p.updated_end@,
            },
            Query::UpdateSyncedAt(p) => QueryModel::UpdateSyncedAt {
                uuid: p.uuid@,
                updated_end: p.updated_end@,
            },
        }
    }
}

/// How long, in seconds, the server waits for the Data Provider to answer a query.
pub open spec fn query_timeout(q: QueryModel) -> u64 {
    match q {
        QueryModel::MyIdentity => 5,
        QueryModel::SyncPermission { .. } => 5,
        QueryModel::Now => 5,
        _ => 10,
    }
}

impl Query {
    /// How long, in seconds, to wait for the Data Provider's answer.
    pub fn timeout_secs(&self) -> (r: u64)
        ensures
            r == query_timeout(self@),
    {
        match self {
            Query::MyIdentity => 5,
            Query::SyncPermission(_) => 5,
            Query::Now => 5,
            _ => 10,
        }
    }
}

/// How a server session ended.
#[derive(Debug, Clone, Copy, PartialEq, Eq, Structural)]
pub enum Outcome {
    /// The peer finished, the synchronization time was recorded and acknowledged.
    Success,
    /// The peer was refused at the permission gate.
    Rejected,
    /// The peer reported that it gave up.
    PeerFailed,
    /// The stream, the Data Provider or the peer's bytes failed.
    Failed(Error),
}

/// What the host reports back to the server session.
pub enum ServerEvent {
    /// The Data Provider's text answer: an identity, a time, or JSON.
    Text(String),
    /// The Data Provider's answer to the permission query.
    Permission(bool),
    /// The Data Provider recorded the synchronization time.
    Stored,
    /// The bytes read from the stream, as many as the session asked for.
    Received(Vec<u8>),
    /// A stream error, or a bridge call that failed or timed out.
    Failed(Error),
}

/// A server event, over texts and byte sequences.
pub enum EventModel {
    Text(Seq<char>),
    Permission(bool),
    Stored,
    Received(Seq<u8>),
    Failed(Error),
}

impl View for ServerEvent {
    type V = EventModel;

    open spec fn view(&self) -> EventModel {
        match self {
            ServerEvent::Text(s) => EventModel::Text(s@),
            ServerEvent::Permission(b) => EventModel::Permission(*b),
            ServerEvent::Stored => EventModel::Stored,
            ServerEvent::Received(b) => EventModel::Received(b@),
            ServerEvent::Failed(e) => EventModel::Failed(*e),
        }
    }
}

/// What the host does after writing the action's bytes.
pub enum ServerStep {
    /// Call the Data Provider and report its answer.
    Query(Query),
    /// Read exactly this many bytes and report them.
    Read(usize),
    /// Close the connection: the session is over.
    Close(Outcome),
}

/// The next thing the host must do for the session: write `write` (if not
/// empty) and flush, then perform `next`.
pub struct ServerAction {
    pub write: Vec<u8>,
    pub next: ServerStep,
}

/// A step of the host, over byte sequences.
pub enum StepModel {
    Query(QueryModel),
    Read(nat),
    Close(Outcome),
}

/// An action of the host, over byte sequences.
pub struct ActionModel {
    pub write: Seq<u8>,
    pub next: StepModel,
}

impl View for ServerAction {
    type V = ActionModel;

    open spec fn view(&self) -> ActionModel {
        ActionModel {
            write: self.write@,
            next: match &self.next {
                ServerStep::Query(q) => StepModel::Query(q@),
                ServerStep::Read(n) => StepModel::Read(*n as nat),
                ServerStep::Close(o) => StepModel::Close(*o),
            },
        }
    }
}

/// The states of a server session.
pub enum ServerPhase {
    /// Waiting for the Data Provider to give the server's own identity.
    Identity,
    /// Own identity sent; waiting for the peer's.
    Handshake,
    /// Waiting for the Data Provider's permission decision on `peer`.
    Permission { peer: Seq<char> },
    /// Permission granted; waiting for the Data Provider's current time.
    Clock { peer: Seq<char> },
    /// Waiting for the next request-id byte.
    Serving { peer: Seq<char>, updated_end: Seq<char> },
    /// Waiting for the token that follows request id `request`.
    Token { peer: Seq<char>, updated_end: Seq<char>, request: u8 },
    /// Waiting for the Data Provider's JSON, to be sent back under `token`.
    Fetching { peer: Seq<char>, updated_end: Seq<char>, token: Seq<u8> },
    /// The peer finished; waiting for the Data Provider to record it.
    Committing { peer: Seq<char>, updated_end: Seq<char> },
    /// The session is over. After `Success`, only a failure to write the
    /// acknowledgment changes it, into a failure.
    Terminated(Outcome),
}

/// The error for 36 bytes that should be a token and are not.
pub open spec fn token_error(b: Seq<u8>) -> Error {
    if b.len() == TOKEN_LEN {
        Error::Decode
    } else {
        Error::InvalidToken
    }
}

/// End the session with a failure; nothing more is written.
pub open spec fn abort_with(e: Error) -> (ServerPhase, ActionModel) {
    (
        ServerPhase::Terminated(Outcome::Failed(e)),
        ActionModel { write: Seq::empty(), next: StepModel::Close(Outcome::Failed(e)) },
    )
}

/// Refuse the peer: write `SYNC_REJECTED` and end the session.
pub open spec fn reject_peer() -> (ServerPhase, ActionModel) {
    (
        ServerPhase::Terminated(Outcome::Rejected),
        ActionModel { write: seq![SYNC_REJECTED], next: StepModel::Close(Outcome::Rejected) },
    )
}

/// The Data Provider query for a request that names thread or note `id`.
pub open spec fn data_query(request: u8, peer: Seq<char>, id: Seq<char>, updated_end: Seq<char>) -> QueryModel {
    if request == REQUEST_ALL_NOTES_IN_THREAD {
        QueryModel::AllNotesInThread { thread_id: id }
    } else if request == REQUEST_ALL_NOTES_IN_TREE {
        QueryModel::AllNotesInTree { parent_id: id }
    } else if request == REQUEST_NOTE_UPDATES_IN_THREAD {
        QueryModel::NoteUpdatesInThread { uuid: peer, thread_id: id, updated_end }
    } else {
        QueryModel::NoteUpdatesInTree { uuid: peer, parent_id: id, updated_end }
    }
}

/// A request id that is followed by a 36-byte thread or note id.
pub open spec fn names_an_id(request: u8) -> bool {
    REQUEST_ALL_NOTES_IN_THREAD <= request <= REQUEST_NOTE_UPDATES_IN_TREE
}

/// The server's dispatch on one request-id byte.
pub open spec fn serve_request(peer: Seq<char>, updated_end: Seq<char>, request: u8) -> (ServerPhase, ActionModel) {
    if request == REQUEST_THREAD_UPDATES {
        (
            ServerPhase::Fetching { peer, updated_end, token: blank_token() },
            ActionModel {
                write: Seq::empty(),
                next: StepModel::Query(QueryModel::ThreadUpdates { uuid: peer, updated_end }),
            },
        )
    } else if names_an_id(request) {
        (
            ServerPhase::Token { peer, updated_end, request },
            ActionModel { write: Seq::empty(), next: StepModel::Read(TOKEN_LEN as nat) },
        )
    } else if request == SYNC_SUCCESS {
        (
            ServerPhase::Committing { peer, updated_end },
            ActionModel {
                write: Seq::empty(),
                next: StepModel::Query(QueryModel::UpdateSyncedAt { uuid: peer, updated_end }),
            },
        )
    } else if request == SYNC_FAILED {
        (
            ServerPhase::Terminated(Outcome::PeerFailed),
            ActionModel { write: Seq::empty(), next: StepModel::Close(Outcome::PeerFailed) },
        )
    } else {
        // An unknown request id is skipped, and the next byte read as a request id.
        (
            ServerPhase::Serving { peer, updated_end },
            ActionModel { write: Seq::empty(), next: StepModel::Read(1) },
        )
    }
}

/// The server's transition on one event.
pub open spec fn server_step(p: ServerPhase, e: EventModel) -> (ServerPhase, ActionModel) {
    match p {
        // Success needs the acknowledgment to go out: a stream error while
        // writing it turns the session into a failure.
        ServerPhase::Terminated(o) => if o == Outcome::Success && e is Failed {
            abort_with(e->Failed_0)
        } else {
            (p, ActionModel { write: Seq::empty(), next: StepModel::Close(o) })
        },
        _ => match e {
            // A permission query that failed or timed out refuses the peer.
            EventModel::Failed(err) => if p is Permission {
                reject_peer()
            } else {
                abort_with(err)
            },
            _ => match p {
                ServerPhase::Identity => match e {
                    EventModel::Text(me) => if is_identity(me) {
                        (
                            ServerPhase::Handshake,
                            ActionModel {
                                write: text_bytes(me),
                                next: StepModel::Read(TOKEN_LEN as nat),
                            },
                        )
                    } else {
                        abort_with(Error::InvalidToken)
                    },
                    _ => abort_with(Error::ProtocolViolation),
                },
                ServerPhase::Handshake => match e {
                    EventModel::Received(b) => if is_token(b) {
                        (
                            ServerPhase::Permission { peer: decode_utf8(b) },
                            ActionModel {
                                write: Seq::empty(),
                                next: StepModel::Query(
                                    QueryModel::SyncPermission { uuid: decode_utf8(b) },
                                ),
                            },
                        )
                    } else {
                        abort_with(token_error(b))
                    },
                    _ => abort_with(Error::ProtocolViolation),
                },
                ServerPhase::Permission { peer } => match e {
                    EventModel::Permission(allowed) => if allowed {
                        (
                            ServerPhase::Clock { peer },
                            ActionModel {
                                write: seq![SYNC_ALLOWED],
                                next: StepModel::Query(QueryModel::Now),
                            },
                        )
                    } else {
                        reject_peer()
                    },
                    _ => abort_with(Error::ProtocolViolation),
                },
                ServerPhase::Clock { peer } => match e {
                    EventModel::Text(now) => (
                        ServerPhase::Serving { peer, updated_end: now },
                        ActionModel { write: Seq::empty(), next: StepModel::Read(1) },
                    ),
                    _ => abort_with(Error::ProtocolViolation),
                },
                ServerPhase::Serving { peer, updated_end } => match e {
                    EventModel::Received(b) => if b.len() == 1 {
                        serve_request(peer, updated_end, b[0])
                    } else {
                        abort_with(Error::ProtocolViolation)
                    },
                    _ => abort_with(Error::ProtocolViolation),
                },
                ServerPhase::Token { peer, updated_end, request } => match e {
                    EventModel::Received(b) => if is_token(b) {
                        (
                            ServerPhase::Fetching { peer, updated_end, token: b },
                            ActionModel {
                                write: Seq::empty(),
                                next: StepModel::Query(
                                    data_query(request, peer, decode_utf8(b), updated_end),
                                ),
                            },
                        )
                    } else {
                        abort_with(token_error(b))
                    },
                    _ => abort_with(Error::ProtocolViolation),
                },
                ServerPhase::Fetching { peer, updated_end, token } => match e {
                    EventModel::Text(json) => if text_bytes(json).len() <= u32::MAX {
                        (
                            ServerPhase::Serving { peer, updated_end },
                            ActionModel {
                                write: correlated_frame(token, text_bytes(json)),
                                next: StepModel::Read(1),
                            },
                        )
                    } else {
                        abort_with(Error::PayloadTooLarge)
                    },
                    _ => abort_with(Error::ProtocolViolation),
                },
                ServerPhase::Committing { peer, updated_end } => match e {
                    EventModel::Stored => (
                        ServerPhase::Terminated(Outcome::Success),
                        ActionModel {
                            write: seq![SYNC_SUCCESS],
                            next: StepModel::Close(Outcome::Success),
                        },
                    ),
                    _ => abort_with(Error::ProtocolViolation),
                },
                ServerPhase::Terminated(o) => (
                    p,
                    ActionModel { write: Seq::empty(), next: StepModel::Close(o) },
                ),
            },
        },
    }
}

/// The session's state, holding texts and bytes.
enum Stage {
    Identity,
    Handshake,
    Permission { peer: String },
    Clock { peer: String },
    Serving { peer: String, updated_end: String },
    Token { peer: String, updated_end: String, request: u8 },
    Fetching { peer: String, updated_end: String, token: Vec<u8> },
    Committing { peer: String, updated_end: String },
    Terminated(Outcome),
}

impl View for Stage {
    type V = ServerPhase;

    closed spec fn view(&self) -> ServerPhase {
        match self {
            Stage::Identity => ServerPhase::Identity,
            Stage::Handshake => ServerPhase::Handshake,
            Stage::Permission { peer } => ServerPhase::Permission { peer: peer@ },
            Stage::Clock { peer } => ServerPhase::Clock { peer: peer@ },
            Stage::Serving { peer, updated_end } => ServerPhase::Serving {
                peer: peer@,
                updated_end: updated_end@,
            },
            Stage::Token { peer, updated_end, request } => ServerPhase::Token {
                peer: peer@,
                updated_end: updated_end@,
                request: *request,
            },
            Stage::Fetching { peer, updated_end, token } => ServerPhase::Fetching {
                peer: peer@,
                updated_end: updated_end@,
                token: token@,
            },
            Stage::Committing { peer, updated_end } => ServerPhase::Committing {
                peer: peer@,
                updated_end: updated_end@,
            },
            Stage::Terminated(o) => ServerPhase::Terminated(*o),
        }
    }
}

/// One inbound connection's protocol state machine: handshake, permission
/// gate, request dispatch and termination. The host performs each action it
/// returns and reports the result as the next event.
pub struct SyncServerSession {
    stage: Stage,
}

impl View for SyncServerSession {
    type V = ServerPhase;

    closed spec fn view(&self) -> ServerPhase {
        self.stage@
    }
}

/// The first action of every session: ask the Data Provider for the server's identity.
pub open spec fn initial_action() -> ActionModel {
    ActionModel { write: Seq::empty(), next: StepModel::Query(QueryModel::MyIdentity) }
}

fn action(write: Vec<u8>, next: ServerStep) -> (r: ServerAction)
    ensures
        r.write@ == write@,
        r.next == next,
{
    ServerAction { write, next }
}

fn single_byte(b: u8) -> (r: Vec<u8>)
    ensures
        r@ == seq![b],
{
    let mut r: Vec<u8> = Vec::new();
    r.push(b);
    assert(r@ =~= seq![b]);
    r
}

fn abort(e: Error) -> (r: (Stage, ServerAction))
    ensures
        r.0@ == abort_with(e).0,
        r.1@ == abort_with(e).1,
{
    (Stage::Terminated(Outcome::Failed(e)), action(Vec::new(), ServerStep::Close(Outcome::Failed(e))))
}

fn reject() -> (r: (Stage, ServerAction))
    ensures
        r.0@ == reject_peer().0,
        r.1@ == reject_peer().1,
{
    (
        Stage::Terminated(Outcome::Rejected),
        action(single_byte(SYNC_REJECTED), ServerStep::Close(Outcome::Rejected)),
    )
}

fn build_data_query(request: u8, peer: String, id: String, updated_end: String) -> (r: Query)
    ensures
        r@ == data_query(request, peer@, id@, updated_end@),
{
    if request == REQUEST_ALL_NOTES_IN_THREAD {
        Query::AllNotesInThread(RequestParamAllNotesInThread { thread_id: id })
    } else if request == REQUEST_ALL_NOTES_IN_TREE {
        Query::AllNotesInTree(RequestParamAllNotesInTree { parent_id: id })
    } else if request == REQUEST_NOTE_UPDATES_IN_THREAD {
        Query::NoteUpdatesInThread(
            RequestParamNoteUpdatesInThread { uuid: peer, thread_id: id, updated_end },
        )
    } else {
        Query::NoteUpdatesInTree(
            RequestParamNoteUpdatesInTree { uuid: peer, parent_id: id, updated_end },
        )
    }
}

fn dispatch(peer: String, updated_end: String, request: u8) -> (r: (Stage, ServerAction))
    ensures
        r.0@ == serve_request(peer@, updated_end@, request).0,
        r.1@ == serve_request(peer@, updated_end@, request).1,
{
    if request == REQUEST_THREAD_UPDATES {
        let q = Query::ThreadUpdates(
            RequestParamThreadUpdates { uuid: peer.clone(), updated_end: updated_end.clone() },
        );
        let token = blank_token_bytes();
        (Stage::Fetching { peer, updated_end, token }, action(Vec::new(), ServerStep::Query(q)))
    } else if REQUEST_ALL_NOTES_IN_THREAD <= request && request <= REQUEST_NOTE_UPDATES_IN_TREE {
        (Stage::Token { peer, updated_end, request }, action(Vec::new(), ServerStep::Read(TOKEN_LEN)))
    } else if request == SYNC_SUCCESS {
        let q = Query::UpdateSyncedAt(
            RequestParamUpdateSyncedAt { uuid: peer.clone(), updated_end: updated_end.clone() },
        );
        (Stage::Committing { peer, updated_end }, action(Vec::new(), ServerStep::Query(q)))
    } else if request == SYNC_FAILED {
        (Stage::Terminated(Outcome::PeerFailed), action(Vec::new(), ServerStep::Close(Outcome::PeerFailed)))
    } else {
        (Stage::Serving { peer, updated_end }, action(Vec::new(), ServerStep::Read(1)))
    }
}

fn transition(stage: Stage, event: ServerEvent) -> (r: (Stage, ServerAction))
    ensures
        r.0@ == server_step(stage@, event@).0,
        r.1@ == server_step(stage@, event@).1,
{
    if let Stage::Terminated(o) = stage {
        if let Outcome::Success = o {
            if let ServerEvent::Failed(e) = event {
                return abort(e);
            }
        }
        return (Stage::Terminated(o), action(Vec::new(), ServerStep::Close(o)));
    }
    if let ServerEvent::Failed(e) = event {
        if let Stage::Permission { .. } = stage {
            return reject();
        }
        return abort(e);
    }
    match stage {
        Stage::Identity => match event {
            ServerEvent::Text(me) => {
                let bytes = text_to_bytes(me.as_str());
                if bytes.len() == TOKEN_LEN {
                    (Stage::Handshake, action(bytes, ServerStep::Read(TOKEN_LEN)))
                } else {
                    abort(Error::InvalidToken)
                }
            },
            _ => abort(Error::ProtocolViolation),
        },
        Stage::Handshake => match event {
            ServerEvent::Received(b) => match read_uuid(b.as_slice()) {
                Ok(peer) => {
                    let q = Query::SyncPermission(RequestParamSyncPermission { uuid: peer.clone() });
                    (Stage::Permission { peer }, action(Vec::new(), ServerStep::Query(q)))
                },
                Err(e) => abort(e),
            },
            _ => abort(Error::ProtocolViolation),
        },
        Stage::Permission { peer } => match event {
            ServerEvent::Permission(allowed) => {
                if allowed {
                    (Stage::Clock { peer }, action(single_byte(SYNC_ALLOWED), ServerStep::Query(Query::Now)))
                } else {
                    reject()
                }
            },
            _ => abort(Error::ProtocolViolation),
        },
        Stage::Clock { peer } => match event {
            ServerEvent::Text(now) => (
                Stage::Serving { peer, updated_end: now },
                action(Vec::new(), ServerStep::Read(1)),
            ),
            _ => abort(Error::ProtocolViolation),
        },
        Stage::Serving { peer, updated_end } => match event {
            ServerEvent::Received(b) => {
                if b.len() == 1 {
                    dispatch(peer, updated_end, b[0])
                } else {
                    abort(Error::ProtocolViolation)
                }
            },
            _ => abort(Error::ProtocolViolation),
        },
        Stage::Token { peer, updated_end, request } => match event {
            ServerEvent::Received(b) => match read_uuid(b.as_slice()) {
                Ok(id) => {
                    let q = build_data_query(request, peer.clone(), id, updated_end.clone());
                    (
                        Stage::Fetching { peer, updated_end, token: b },
                        action(Vec::new(), ServerStep::Query(q)),
                    )
                },
                Err(e) => abort(e),
            },
            _ => abort(Error::ProtocolViolation),
        },
        Stage::Fetching { peer, updated_end, token } => match event {
            ServerEvent::Text(json) => {
                let data = text_to_bytes(json.as_str());
                match encode_correlated_payload(token.as_slice(), data.as_slice()) {
                    Ok(frame) => (Stage::Serving { peer, updated_end }, action(frame, ServerStep::Read(1))),
                    Err(e) => abort(e),
                }
            },
            _ => abort(Error::ProtocolViolation),
        },
        Stage::Committing { peer, updated_end } => match event {
            ServerEvent::Stored => (
                Stage::Terminated(Outcome::Success),
                action(single_byte(SYNC_SUCCESS), ServerStep::Close(Outcome::Success)),
            ),
            _ => abort(Error::ProtocolViolation),
        },
        Stage::Terminated(o) => (Stage::Terminated(o), action(Vec::new(), ServerStep::Close(o))),
    }
}

impl SyncServerSession {
    /// A session for a freshly accepted connection, with its first action.
    pub fn new() -> (r: (SyncServerSession, ServerAction))
        ensures
            r.0@ == ServerPhase::Identity,
            r.1@ == initial_action(),
    {
        (SyncServerSession { stage: Stage::Identity }, action(Vec::new(), ServerStep::Query(Query::MyIdentity)))
    }

    /// Feeds the result of the last action and returns the next one.
    pub fn step(&mut self, event: ServerEvent) -> (r: ServerAction)
        ensures
            final(self)@ == server_step(old(self)@, event@).0,
            r@ == server_step(old(self)@, event@).1,
    {
        let mut stage = Stage::Identity;
        std::mem::swap(&mut self.stage, &mut stage);
        let (next, r) = transition(stage, event);
        self.stage = next;
        r
    }

    /// Whether the session is over.
    pub fn is_terminated(&self) -> (r: bool)
        ensures
            r == (self@ is Terminated),
    {
        match self.stage {
            Stage::Terminated(_) => true,
            _ => false,
        }
    }
}

/// Fails with `ServerAlreadyStarted` where a server is already running.
pub fn check_server_state<T>(state: &Option<T>) -> (r: Result<(), Error>)
    ensures
        r == (if state.is_some() {
            Err::<(), Error>(Error::ServerAlreadyStarted)
        } else {
            Ok(())
        }),
{
    match state {
        Some(_) => Err(Error::ServerAlreadyStarted),
        None => Ok(()),
    }
}

/// Takes the running server's state, if any, for the host to stop advertising it.
pub fn stop<T>(state: &mut Option<T>) -> (r: Option<T>)
    ensures
        r == *old(state),
        final(state).is_none(),
{
    state.take()
}

} // verus!
