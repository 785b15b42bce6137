use vstd::prelude::*;
use vstd::utf8::*;

use crate::codec::{
    blank_token, blank_token_bytes, decode_payload, is_identity, is_token, push_all, read_uuid,
    text_bytes, text_to_bytes, SYNC_ALLOWED, SYNC_FAILED, SYNC_SUCCESS, TOKEN_LEN,
};
use crate::error::Error;
use crate::server::token_error;

verus! {

/// The states of a client session.
pub enum ClientPhase {
    /// No session.
    Idle,
    /// Own identity sent; waiting for the server's, to check against `allowed`.
    Handshake { allowed: Seq<Seq<char>> },
    /// The server's identity is accepted; waiting for its permission byte.
    Permission { peer: Seq<char> },
    /// Requests may be issued. `pending` holds the correlation keys of the
    /// requests that wait for a reply; `reading` the key of the reply whose
    /// body is being read.
    Active { peer: Seq<char>, pending: Set<Seq<u8>>, reading: Option<Seq<u8>> },
}

/// What a caller can observe of a client.
pub struct ClientModel {
    pub my_uuid: Seq<char>,
    pub companion_device_id: Seq<char>,
    pub phase: ClientPhase,
}

/// The client with its phase replaced.
pub open spec fn with_phase(m: ClientModel, p: ClientPhase) -> ClientModel {
    ClientModel { phase: p, ..m }
}

/// Starting a session: the client's own identity goes out first.
pub open spec fn client_begin(m: ClientModel, allowed: Seq<Seq<char>>) -> (ClientModel, Result<Seq<u8>, Error>) {
    if is_identity(m.my_uuid) {
        (with_phase(m, ClientPhase::Handshake { allowed }), Ok(text_bytes(m.my_uuid)))
    } else {
        (m, Err(Error::InvalidToken))
    }
}

/// The server's identity arrives: it must decode and be on the allow-list.
pub open spec fn client_identity(m: ClientModel, b: Seq<u8>) -> (ClientModel, Result<Seq<char>, Error>) {
    match m.phase {
        ClientPhase::Handshake { allowed } => if !is_token(b) {
            (with_phase(m, ClientPhase::Idle), Err(token_error(b)))
        } else if allowed.contains(decode_utf8(b)) {
            (with_phase(m, ClientPhase::Permission { peer: decode_utf8(b) }), Ok(decode_utf8(b)))
        } else {
            (with_phase(m, ClientPhase::Idle), Err(Error::SyncNotEnabled))
        },
        _ => (m, Err(Error::ProtocolViolation)),
    }
}

/// The server's permission byte arrives.
pub open spec fn client_permission(m: ClientModel, response: u8) -> (ClientModel, Result<(), Error>) {
    match m.phase {
        ClientPhase::Permission { peer } => if response == SYNC_ALLOWED {
            (
                with_phase(m, ClientPhase::Active { peer, pending: Set::empty(), reading: None }),
                Ok(()),
            )
        } else {
            (with_phase(m, ClientPhase::Idle), Err(Error::SyncNotAllowed))
        },
        _ => (m, Err(Error::ProtocolViolation)),
    }
}

/// The correlation token that the reply to a request carries.
pub open spec fn correlation_key(uuid: Option<Seq<char>>) -> Seq<u8> {
    match uuid {
        Some(u) => text_bytes(u),
        None => blank_token(),
    }
}

/// The bytes of a request: its id, then the id of its thread or note, if any.
pub open spec fn request_frame(request_id: u8, uuid: Option<Seq<char>>) -> Seq<u8> {
    match uuid {
        Some(u) => seq![request_id] + text_bytes(u),
        None => seq![request_id],
    }
}

/// Issuing a request.
pub open spec fn client_request(m: ClientModel, request_id: u8, uuid: Option<Seq<char>>) -> (ClientModel, Result<Seq<u8>, Error>) {
    match m.phase {
        ClientPhase::Active { peer, pending, reading } => if uuid matches Some(u) && !is_identity(u) {
            (m, Err(Error::InvalidToken))
        } else if pending.contains(correlation_key(uuid)) {
            (m, Err(Error::DuplicateRequest))
        } else {
            (
                with_phase(
                    m,
                    ClientPhase::Active {
                        peer,
                        pending: pending.insert(correlation_key(uuid)),
                        reading,
                    },
                ),
                Ok(request_frame(request_id, uuid)),
            )
        },
        _ => (m, Err(Error::NotConnected)),
    }
}

/// A reply's correlation token arrives: it names the request the reply is for.
pub open spec fn client_response(m: ClientModel, b: Seq<u8>) -> (ClientModel, Result<Seq<char>, Error>) {
    match m.phase {
        ClientPhase::Active { peer, pending, reading } => if reading is Some {
            (m, Err(Error::ProtocolViolation))
        } else if !is_token(b) {
            // A token that does not decode leaves the stream misaligned: the session ends.
            (with_phase(m, ClientPhase::Idle), Err(token_error(b)))
        } else if pending.contains(b) {
            (
                with_phase(m, ClientPhase::Active { peer, pending, reading: Some(b) }),
                Ok(decode_utf8(b)),
            )
        } else {
            (m, Err(Error::ProtocolViolation))
        },
        _ => (m, Err(Error::NotConnected)),
    }
}

/// A reply's payload arrives: the request it belongs to is complete.
pub open spec fn client_payload(m: ClientModel, data: Seq<u8>) -> (ClientModel, Result<Seq<char>, Error>) {
    match m.phase {
        ClientPhase::Active { peer, pending, reading } => match reading {
            Some(t) => if valid_utf8(data) {
                (
                    with_phase(
                        m,
                        ClientPhase::Active { peer, pending: pending.remove(t), reading: None },
                    ),
                    Ok(decode_utf8(data)),
                )
            } else {
                // A payload that is not text is fatal to the session.
                (with_phase(m, ClientPhase::Idle), Err(Error::Decode))
            },
            None => (m, Err(Error::ProtocolViolation)),
        },
        _ => (m, Err(Error::NotConnected)),
    }
}

/// Ending a session: the terminal byte to send.
pub open spec fn client_end(m: ClientModel, success: bool) -> (ClientModel, Result<u8, Error>) {
    match m.phase {
        ClientPhase::Active { .. } => (
            with_phase(m, ClientPhase::Idle),
            Ok(
                if success {
                    SYNC_SUCCESS
                } else {
                    SYNC_FAILED
                },
            ),
        ),
        _ => (m, Err(Error::NotStarted)),
    }
}

/// The texts of a list of strings.
pub open spec fn texts(v: Seq<String>) -> Seq<Seq<char>> {
    v.map_values(|s: String| s@)
}

/// The set of byte sequences held in a list of buffers.
pub open spec fn key_set(v: Seq<Vec<u8>>) -> Set<Seq<u8>> {
    Set::new(|k: Seq<u8>| exists|i: int| 0 <= i < v.len() && #[trigger] v[i]@ == k)
}

/// An optional string, seen as its text.
pub open spec fn opt_text(o: Option<String>) -> Option<Seq<char>> {
    match o {
        Some(s) => Some(s@),
        None => None,
    }
}

/// A result carrying bytes, seen as a byte sequence.
pub open spec fn bytes_result(r: Result<Vec<u8>, Error>) -> Result<Seq<u8>, Error> {
    match r {
        Ok(v) => Ok(v@),
        Err(e) => Err(e),
    }
}

/// A result carrying a string, seen as its text.
pub open spec fn text_result(r: Result<String, Error>) -> Result<Seq<char>, Error> {
    match r {
        Ok(s) => Ok(s@),
        Err(e) => Err(e),
    }
}

proof fn lemma_key_set_push(v: Seq<Vec<u8>>, x: Vec<u8>)
    ensures
        key_set(v.push(x)) == key_set(v).insert(x@),
{
    let w = v.push(x);
    assert forall|k: Seq<u8>| key_set(w).contains(k) <==> key_set(v).insert(x@).contains(k) by {
        if key_set(v).contains(k) {
            let i: int = choose|i: int| 0 <= i < v.len() && #[trigger] v[i]@ == k;
            assert(w[i]@ == k);
        }
        if k == x@ {
            assert(w[v.len() as int]@ == k);
        }
        if key_set(w).contains(k) {
            let i: int = choose|i: int| 0 <= i < w.len() && #[trigger] w[i]@ == k;
            if i < v.len() {
                assert(v[i]@ == k);
            }
        }
    }
    assert(key_set(w) =~= key_set(v).insert(x@));
}

fn bytes_eq(a: &[u8], b: &[u8]) -> (r: bool)
    ensures
        r == (a@ == b@),
{
    if a.len() != b.len() {
        return false;
    }
    let mut i: usize = 0;
    while i < a.len()
        invariant
            a@.len() == b@.len(),
            i <= a@.len(),
            forall|j: int| 0 <= j < i ==> a@[j] == b@[j],
        decreases a@.len() - i,
    {
        if a[i] != b[i] {
            return false;
        }
        i += 1;
    }
    assert(a@ =~= b@);
    true
}

fn contains_key(keys: &Vec<Vec<u8>>, k: &[u8]) -> (r: bool)
    ensures
        r == key_set(keys@).contains(k@),
{
    let mut i: usize = 0;
    while i < keys.len()
        invariant
            i <= keys@.len(),
            forall|j: int| 0 <= j < i ==> keys@[j]@ != k@,
        decreases keys@.len() - i,
    {
        if bytes_eq(keys[i].as_slice(), k) {
            assert(keys@[i as int]@ == k@);
            return true;
        }
        i += 1;
    }
    false
}

fn without_key(keys: Vec<Vec<u8>>, k: &[u8]) -> (r: Vec<Vec<u8>>)
    ensures
        key_set(r@) == key_set(keys@).remove(k@),
{
    let mut r: Vec<Vec<u8>> = Vec::new();
    let mut i: usize = 0;
    while i < keys.len()
        invariant
            i <= keys@.len(),
            forall|x: Seq<u8>| #[trigger] key_set(r@).contains(x) <==> (x != k@ && exists|j: int|
                0 <= j < i && keys@[j]@ == x),
        decreases keys@.len() - i,
    {
        if !bytes_eq(keys[i].as_slice(), k) {
            let ghost before = r@;
            let item = copy_bytes(keys[i].as_slice());
            r.push(item);
            proof {
                lemma_key_set_push(before, item);
                assert forall|x: Seq<u8>| #[trigger] key_set(r@).contains(x) <==> (x != k@
                    && exists|j: int| 0 <= j < i + 1 && keys@[j]@ == x) by {
                    if x == item@ {
                        assert(keys@[i as int]@ == x);
                    }
                    if exists|j: int| 0 <= j < i + 1 && keys@[j]@ == x {
                        let j: int = choose|j: int| 0 <= j < i + 1 && keys@[j]@ == x;
                        if j < i {
                            assert(exists|j: int| 0 <= j < i && keys@[j]@ == x);
                        }
                    }
                }
            }
        } else {
            assert forall|x: Seq<u8>| #[trigger] key_set(r@).contains(x) <==> (x != k@
                && exists|j: int| 0 <= j < i + 1 && keys@[j]@ == x) by {
                if exists|j: int| 0 <= j < i + 1 && keys@[j]@ == x {
                    let j: int = choose|j: int| 0 <= j < i + 1 && keys@[j]@ == x;
                    if j < i {
                        assert(exists|j: int| 0 <= j < i && keys@[j]@ == x);
                    }
                }
            }
        }
        i += 1;
    }
    assert(key_set(r@) =~= key_set(keys@).remove(k@));
    r
}

fn copy_bytes(b: &[u8]) -> (r: Vec<u8>)
    ensures
        r@ == b@,
{
    let mut r: Vec<u8> = Vec::new();
    push_all(&mut r, b);
    assert(r@ =~= b@);
    r
}

fn is_allowed(allowed: &Vec<String>, peer: &String) -> (r: bool)
    ensures
        r == texts(allowed@).contains(peer@),
{
    let mut i: usize = 0;
    while i < allowed.len()
        invariant
            i <= allowed@.len(),
            forall|j: int| 0 <= j < i ==> allowed@[j]@ != peer@,
        decreases allowed@.len() - i,
    {
        if allowed[i] == *peer {
            assert(texts(allowed@)[i as int] == peer@);
            return true;
        }
        i += 1;
    }
    proof {
        if texts(allowed@).contains(peer@) {
            let j: int = choose|j: int| 0 <= j < texts(allowed@).len() && texts(allowed@)[j] == peer@;
            assert(allowed@[j]@ == peer@);
        }
    }
    false
}

/// An active session's state.
struct Session {
    peer: String,
    pending: Vec<Vec<u8>>,
    reading: Option<Vec<u8>>,
}

/// A client's state, holding texts and bytes.
enum Phase {
    Idle,
    Handshake { allowed: Vec<String> },
    Permission { peer: String },
    Active(Session),
}

impl View for Phase {
    type V = ClientPhase;

    closed spec fn view(&self) -> ClientPhase {
        match self {
            Phase::Idle => ClientPhase::Idle,
            Phase::Handshake { allowed } => ClientPhase::Handshake { allowed: texts(allowed@) },
            Phase::Permission { peer } => ClientPhase::Permission { peer: peer@ },
            Phase::Active(s) => ClientPhase::Active {
                peer: s.peer@,
                pending: key_set(s.pending@),
                reading: match &s.reading {
                    Some(t) => Some(t@),
                    None => None,
                },
            },
        }
    }
}

/// The client side of a synchronization: handshake, permission gate, request
/// issuance with correlation of replies, and termination. The host moves the
/// bytes; the client decides what they mean and what to send.
pub struct SyncClient {
    my_uuid: String,
    companion_device_id: String,
    phase: Phase,
}

impl View for SyncClient {
    type V = ClientModel;

    closed spec fn view(&self) -> ClientModel {
        ClientModel {
            my_uuid: self.my_uuid@,
            companion_device_id: self.companion_device_id@,
            phase: self.phase@,
        }
    }
}

impl SyncClient {
    /// A client with the given identity, for the given companion device; no session yet.
    pub fn create_instance(my_uuid: String, companion_device_id: String) -> (r: Self)
        ensures
            r@ == (ClientModel {
                my_uuid: my_uuid@,
                companion_device_id: companion_device_id@,
                phase: ClientPhase::Idle,
            }),
    {
        SyncClient { my_uuid, companion_device_id, phase: Phase::Idle }
    }

    /// The device that the host connects to.
    pub fn companion_device_id(&self) -> (r: &str)
        ensures
            r@ == self@.companion_device_id,
    {
        self.companion_device_id.as_str()
    }

    fn take_phase(&mut self) -> (r: Phase)
        ensures
            r@ == old(self)@.phase,
            final(self)@ == with_phase(old(self)@, ClientPhase::Idle),
    {
        let mut p = Phase::Idle;
        std::mem::swap(&mut self.phase, &mut p);
        p
    }

    /// Starts a session over a fresh connection, with the identities the user
    /// enabled for synchronization. Returns the bytes to send: the client's identity.
    pub fn begin_sync(&mut self, sync_enabled_uuids: Vec<String>) -> (r: Result<Vec<u8>, Error>)
        ensures
            final(self)@ == client_begin(old(self)@, texts(sync_enabled_uuids@)).0,
            bytes_result(r) == client_begin(old(self)@, texts(sync_enabled_uuids@)).1,
    {
        let me = text_to_bytes(self.my_uuid.as_str());
        if me.len() != TOKEN_LEN {
            return Err(Error::InvalidToken);
        }
        self.phase = Phase::Handshake { allowed: sync_enabled_uuids };
        Ok(me)
    }

    /// Takes the 36 bytes of the server's identity. Returns the identity.
    pub fn receive_identity(&mut self, token: &[u8]) -> (r: Result<String, Error>)
        ensures
            final(self)@ == client_identity(old(self)@, token@).0,
            text_result(r) == client_identity(old(self)@, token@).1,
    {
        let phase = self.take_phase();
        match phase {
            Phase::Handshake { allowed } => match read_uuid(token) {
                Ok(peer) => {
                    if is_allowed(&allowed, &peer) {
                        self.phase = Phase::Permission { peer: peer.clone() };
                        Ok(peer)
                    } else {
                        Err(Error::SyncNotEnabled)
                    }
                },
                Err(e) => Err(e),
            },
            other => {
                self.phase = other;
                Err(Error::ProtocolViolation)
            },
        }
    }

    /// Takes the server's permission byte.
    pub fn receive_permission(&mut self, response: u8) -> (r: Result<(), Error>)
        ensures
            final(self)@ == client_permission(old(self)@, response).0,
            r == client_permission(old(self)@, response).1,
    {
        let phase = self.take_phase();
        match phase {
            Phase::Permission { peer } => {
                if response == SYNC_ALLOWED {
                    let s = Session { peer, pending: Vec::new(), reading: None };
                    self.phase = Phase::Active(s);
                    assert(key_set(Seq::<Vec<u8>>::empty()) =~= Set::<Seq<u8>>::empty());
                    Ok(())
                } else {
                    Err(Error::SyncNotAllowed)
                }
            },
            other => {
                self.phase = other;
                Err(Error::ProtocolViolation)
            },
        }
    }

    /// Issues a request. `uuid` names its thread or note; without one, the
    /// reply comes under the blank token. Returns the bytes to send.
    pub fn request_data(&mut self, request_id: u8, uuid: Option<String>) -> (r: Result<Vec<u8>, Error>)
        ensures
            final(self)@ == client_request(
                old(self)@,
                request_id,
                opt_text(uuid),
            ).0,
            bytes_result(r) == client_request(
                old(self)@,
                request_id,
                opt_text(uuid),
            ).1,
    {
        let ghost u = opt_text(uuid);
        let phase = self.take_phase();
        match phase {
            Phase::Active(mut s) => {
                let mut frame: Vec<u8> = Vec::new();
                frame.push(request_id);
                let key = match &uuid {
                    Some(id) => {
                        let bytes = text_to_bytes(id.as_str());
                        if bytes.len() != TOKEN_LEN {
                            self.phase = Phase::Active(s);
                            return Err(Error::InvalidToken);
                        }
                        push_all(&mut frame, bytes.as_slice());
                        bytes
                    },
                    None => blank_token_bytes(),
                };
                assert(key@ == correlation_key(u));
                assert(frame@ =~= request_frame(request_id, u));
                if contains_key(&s.pending, key.as_slice()) {
                    self.phase = Phase::Active(s);
                    return Err(Error::DuplicateRequest);
                }
                proof {
                    lemma_key_set_push(s.pending@, key);
                }
                s.pending.push(key);
                self.phase = Phase::Active(s);
                Ok(frame)
            },
            other => {
                self.phase = other;
                Err(Error::NotConnected)
            },
        }
    }

    /// Takes the 36-byte correlation token that starts a reply. Returns the
    /// token's text, which names the request that the reply belongs to; its
    /// payload is to be read next. A token that does not decode ends the session.
    pub fn receive_response(&mut self, token: &[u8]) -> (r: Result<String, Error>)
        ensures
            final(self)@ == client_response(old(self)@, token@).0,
            text_result(r) == client_response(old(self)@, token@).1,
    {
        let phase = self.take_phase();
        match phase {
            Phase::Active(mut s) => {
                if s.reading.is_some() {
                    self.phase = Phase::Active(s);
                    return Err(Error::ProtocolViolation);
                }
                match read_uuid(token) {
                    Ok(id) => {
                        if contains_key(&s.pending, token) {
                            s.reading = Some(copy_bytes(token));
                            self.phase = Phase::Active(s);
                            Ok(id)
                        } else {
                            self.phase = Phase::Active(s);
                            Err(Error::ProtocolViolation)
                        }
                    },
                    Err(e) => Err(e),
                }
            },
            other => {
                self.phase = other;
                Err(Error::NotConnected)
            },
        }
    }

    /// Takes the payload of the reply whose token came last: that request is
    /// complete, and the next reply may be read. Returns the payload's text;
    /// a payload that is not UTF-8 ends the session.
    pub fn receive_payload(&mut self, payload: Vec<u8>) -> (r: Result<String, Error>)
        ensures
            final(self)@ == client_payload(old(self)@, payload@).0,
            text_result(r) == client_payload(old(self)@, payload@).1,
    {
        let phase = self.take_phase();
        match phase {
            Phase::Active(s) => {
                let Session { peer, pending, reading } = s;
                match reading {
                    Some(t) => match decode_payload(payload) {
                        Ok(json) => {
                            let pending = without_key(pending, t.as_slice());
                            self.phase = Phase::Active(Session { peer, pending, reading: None });
                            Ok(json)
                        },
                        Err(e) => Err(e),
                    },
                    None => {
                        self.phase = Phase::Active(Session { peer, pending, reading: None });
                        Err(Error::ProtocolViolation)
                    },
                }
            },
            other => {
                self.phase = other;
                Err(Error::NotConnected)
            },
        }
    }

    /// Ends the session. Returns the terminal byte to send; after
    /// `SYNC_SUCCESS` the host waits for the server's acknowledgment or for
    /// the stream to close, then releases the connection.
    pub fn end_sync(&mut self, success: bool) -> (r: Result<u8, Error>)
        ensures
            final(self)@ == client_end(old(self)@, success).0,
            r == client_end(old(self)@, success).1,
    {
        let phase = self.take_phase();
        match phase {
            Phase::Active(_) => Ok(
                if success {
                    SYNC_SUCCESS
                } else {
                    SYNC_FAILED
                },
            ),
            other => {
                self.phase = other;
                Err(Error::NotStarted)
            },
        }
    }

    /// Tears the session down without a terminal byte, as when its watchdog fires.
    pub fn abort(&mut self)
        ensures
            final(self)@ == with_phase(old(self)@, ClientPhase::Idle),
    {
        self.phase = Phase::Idle;
    }

    /// Whether a session is active.
    pub fn is_active(&self) -> (r: bool)
        ensures
            r == (self@.phase is Active),
    {
        match self.phase {
            Phase::Active(_) => true,
            _ => false,
        }
    }
}

} // verus!
