use vstd::prelude::*;
use vstd::utf8::*;

use crate::client::{
    client_begin, client_end, client_identity, client_payload, client_permission, client_request,
    client_response, correlation_key, request_frame, ClientModel, ClientPhase,
};
use crate::codec::{
    correlated_frame, is_identity, is_token, le_u32_bytes, le_u32_value, lemma_text_round_trip, lemma_blank_token,
    lemma_u32_le_round_trip, text_bytes, REQUEST_ALL_NOTES_IN_THREAD, SYNC_ALLOWED, SYNC_FAILED,
    SYNC_REJECTED, SYNC_SUCCESS, TOKEN_LEN,
};
use crate::error::Error;
use crate::server::{server_step, EventModel, Outcome, QueryModel, ServerPhase, StepModel};

verus! {

/// A client and a server that hold valid identities `a` (server) and `b`
/// (client), where `a` is on the client's allow-list and the server's Data
/// Provider allows the peer: the handshake leaves the server serving `b` and
/// the client active with `a`, and each learns the other's identity.
pub proof fn lemma_handshake_succeeds(
    a: Seq<char>,
    b: Seq<char>,
    allowed: Seq<Seq<char>>,
    device: Seq<char>,
    now: Seq<char>,
)
    requires
        is_identity(a),
        is_identity(b),
        allowed.contains(a),
    ensures
        ({
            let c0 = ClientModel { my_uuid: b, companion_device_id: device, phase: ClientPhase::Idle };
            let (c1, sent_by_client) = client_begin(c0, allowed);
            let (s1, a1) = server_step(ServerPhase::Identity, EventModel::Text(a));
            let (s2, a2) = server_step(s1, EventModel::Received(sent_by_client->Ok_0));
            let (c2, seen_by_client) = client_identity(c1, a1.write);
            let (s3, a3) = server_step(s2, EventModel::Permission(true));
            let (c3, r3) = client_permission(c2, a3.write[0]);
            let (s4, a4) = server_step(s3, EventModel::Text(now));
            &&& sent_by_client == Ok::<Seq<u8>, Error>(text_bytes(b))
            &&& a1.next == StepModel::Read(TOKEN_LEN as nat)
            &&& a2.next == StepModel::Query(QueryModel::SyncPermission { uuid: b })
            &&& seen_by_client == Ok::<Seq<char>, Error>(a)
            &&& a3.write == seq![SYNC_ALLOWED]
            &&& r3 == Ok::<(), Error>(())
            &&& c3.phase == (ClientPhase::Active { peer: a, pending: Set::empty(), reading: None })
            &&& s4 == (ServerPhase::Serving { peer: b, updated_end: now })
            &&& a4.next == StepModel::Read(1)
        }),
{
    lemma_text_round_trip(a);
    lemma_text_round_trip(b);
}

/// A server identity `a` missing from the allow-list makes the client fail
/// with `SyncNotEnabled` and drop the session, so it cannot send any request.
pub proof fn lemma_not_enabled(c: ClientModel, allowed: Seq<Seq<char>>, a: Seq<char>, request_id: u8, uuid: Option<Seq<char>>)
    requires
        c.phase == (ClientPhase::Handshake { allowed }),
        is_identity(a),
        !allowed.contains(a),
    ensures
        client_identity(c, text_bytes(a)).1 == Err::<Seq<char>, Error>(Error::SyncNotEnabled),
        client_identity(c, text_bytes(a)).0.phase == ClientPhase::Idle,
        client_request(client_identity(c, text_bytes(a)).0, request_id, uuid).1
            == Err::<Seq<u8>, Error>(Error::NotConnected),
{
    lemma_text_round_trip(a);
}

/// A peer that the Data Provider does not allow, or whose permission query
/// fails or times out, gets `SYNC_REJECTED` and no further bytes; the client,
/// reading that byte, fails with `SyncNotAllowed` and cannot send any request.
pub proof fn lemma_rejected(
    peer: Seq<char>,
    failure: Error,
    c: ClientModel,
    e: EventModel,
    request_id: u8,
    uuid: Option<Seq<char>>,
)
    requires
        c.phase matches ClientPhase::Permission { .. },
    ensures
        ({
            let (s1, a1) = server_step(ServerPhase::Permission { peer }, EventModel::Permission(false));
            let (c1, r1) = client_permission(c, a1.write[0]);
            &&& a1.write == seq![SYNC_REJECTED]
            &&& a1.next == StepModel::Close(Outcome::Rejected)
            &&& server_step(s1, e).1.write.len() == 0
            &&& server_step(s1, e).0 == s1
            &&& r1 == Err::<(), Error>(Error::SyncNotAllowed)
            &&& client_request(c1, request_id, uuid).1 == Err::<Seq<u8>, Error>(Error::NotConnected)
        }),
        server_step(ServerPhase::Permission { peer }, EventModel::Failed(failure)) == server_step(
            ServerPhase::Permission { peer },
            EventModel::Permission(false),
        ),
{
}

/// A whole server session with own identity `a` and a peer token `b` that
/// the Data Provider refuses, or whose permission query fails: the server
/// writes exactly its identity and then `SYNC_REJECTED`, asks the Data
/// Provider for nothing else, and writes nothing afterwards.
pub proof fn lemma_server_rejects(a: Seq<char>, b: Seq<u8>, answer: EventModel, e: EventModel)
    requires
        is_identity(a),
        is_token(b),
        answer == EventModel::Permission(false) || answer is Failed,
    ensures
        ({
            let (s1, a1) = server_step(ServerPhase::Identity, EventModel::Text(a));
            let (s2, a2) = server_step(s1, EventModel::Received(b));
            let (s3, a3) = server_step(s2, answer);
            &&& a1.write + a2.write + a3.write == text_bytes(a) + seq![SYNC_REJECTED]
            &&& a2.next == StepModel::Query(QueryModel::SyncPermission { uuid: decode_utf8(b) })
            &&& a3.next == StepModel::Close(Outcome::Rejected)
            &&& s3 == ServerPhase::Terminated(Outcome::Rejected)
            &&& server_step(s3, e).0 == s3
            &&& server_step(s3, e).1.write.len() == 0
        }),
{
    let (s1, a1) = server_step(ServerPhase::Identity, EventModel::Text(a));
    let (s2, a2) = server_step(s1, EventModel::Received(b));
    let (s3, a3) = server_step(s2, answer);
    assert(a1.write + a2.write + a3.write =~= text_bytes(a) + seq![SYNC_REJECTED]);
}

/// Round trip of a thread request: the bytes the client sends for
/// `request_data(REQUEST_ALL_NOTES_IN_THREAD, t)` make the server ask the Data
/// Provider for thread `t`; the reply it frames from payload `p` carries `t` as
/// its correlation token, and the client takes back exactly `p`.
pub proof fn lemma_thread_round_trip(
    c: ClientModel,
    peer: Seq<char>,
    pending: Set<Seq<u8>>,
    server_peer: Seq<char>,
    updated_end: Seq<char>,
    t: Seq<char>,
    p: Seq<char>,
)
    requires
        c.phase == (ClientPhase::Active { peer, pending, reading: None }),
        !pending.contains(text_bytes(t)),
        is_identity(t),
        text_bytes(p).len() <= u32::MAX,
    ensures
        ({
            let (c1, sent) = client_request(c, REQUEST_ALL_NOTES_IN_THREAD, Some(t));
            let frame = sent->Ok_0;
            let s0 = ServerPhase::Serving { peer: server_peer, updated_end };
            let (s1, _) = server_step(s0, EventModel::Received(frame.subrange(0, 1)));
            let (s2, a2) = server_step(s1, EventModel::Received(frame.subrange(1, frame.len() as int)));
            let (s3, a3) = server_step(s2, EventModel::Text(p));
            let reply = a3.write;
            let (c2, observed) = client_response(c1, reply.subrange(0, TOKEN_LEN as int));
            let length: u32 = le_u32_value(reply.subrange(TOKEN_LEN as int, TOKEN_LEN + 4));
            let (c3, received) = client_payload(
                c2,
                reply.subrange(TOKEN_LEN + 4, TOKEN_LEN + 4 + length),
            );
            &&& sent is Ok
            &&& a2.next == StepModel::Query(QueryModel::AllNotesInThread { thread_id: t })
            &&& s3 == s0
            &&& a3.write == correlated_frame(text_bytes(t), text_bytes(p))
            &&& observed == Ok::<Seq<char>, Error>(t)
            &&& length == text_bytes(p).len()
            &&& reply.len() == TOKEN_LEN + 4 + length
            &&& received == Ok::<Seq<char>, Error>(p)
            &&& c3.phase == (ClientPhase::Active { peer, pending, reading: None })
        }),
{
    lemma_text_round_trip(t);
    lemma_text_round_trip(p);
    let (c1, sent) = client_request(c, REQUEST_ALL_NOTES_IN_THREAD, Some(t));
    let frame = sent->Ok_0;
    assert(frame == request_frame(REQUEST_ALL_NOTES_IN_THREAD, Some(t)));
    assert(frame.subrange(0, 1) =~= seq![REQUEST_ALL_NOTES_IN_THREAD]);
    assert(frame.subrange(1, frame.len() as int) =~= text_bytes(t));
    let reply = correlated_frame(text_bytes(t), text_bytes(p));
    let n: u32 = text_bytes(p).len() as u32;
    lemma_u32_le_round_trip(n);
    assert(reply.subrange(0, TOKEN_LEN as int) =~= text_bytes(t));
    assert(reply.subrange(TOKEN_LEN as int, TOKEN_LEN + 4) =~= le_u32_bytes(n));
    assert(reply.subrange(TOKEN_LEN + 4, TOKEN_LEN + 4 + n) =~= text_bytes(p));
    assert(pending.insert(text_bytes(t)).remove(text_bytes(t)) =~= pending);
}

/// Two requests with distinct correlation keys, answered in turn: each reply
/// is taken for its own request and delivers its own payload.
pub proof fn lemma_replies_reach_their_requests(
    c: ClientModel,
    peer: Seq<char>,
    id1: u8,
    u1: Option<Seq<char>>,
    payload1: Seq<u8>,
    id2: u8,
    u2: Option<Seq<char>>,
    payload2: Seq<u8>,
)
    requires
        c.phase == (ClientPhase::Active { peer, pending: Set::empty(), reading: None }),
        u1 matches Some(t) ==> is_identity(t),
        u2 matches Some(t) ==> is_identity(t),
        correlation_key(u1) != correlation_key(u2),
        valid_utf8(payload1),
        valid_utf8(payload2),
    ensures
        ({
            let k1 = correlation_key(u1);
            let k2 = correlation_key(u2);
            let (c1, r1) = client_request(c, id1, u1);
            let (c2, r2) = client_request(c1, id2, u2);
            let (c3, t1) = client_response(c2, k1);
            let (c4, d1) = client_payload(c3, payload1);
            let (c5, t2) = client_response(c4, k2);
            let (c6, d2) = client_payload(c5, payload2);
            &&& r1 is Ok
            &&& r2 is Ok
            &&& c3.phase == (ClientPhase::Active {
                peer,
                pending: set![k1, k2],
                reading: Some(k1),
            })
            &&& t1 == Ok::<Seq<char>, Error>(decode_utf8(k1))
            &&& d1 == Ok::<Seq<char>, Error>(decode_utf8(payload1))
            &&& c5.phase == (ClientPhase::Active { peer, pending: set![k2], reading: Some(k2) })
            &&& t2 == Ok::<Seq<char>, Error>(decode_utf8(k2))
            &&& d2 == Ok::<Seq<char>, Error>(decode_utf8(payload2))
            &&& c6.phase == (ClientPhase::Active { peer, pending: Set::empty(), reading: None })
            &&& client_response(c6, k1).1 == Err::<Seq<char>, Error>(Error::ProtocolViolation)
        }),
{
    let k1 = correlation_key(u1);
    let k2 = correlation_key(u2);
    if let Some(t) = u1 {
        lemma_text_round_trip(t);
    }
    if let Some(t) = u2 {
        lemma_text_round_trip(t);
    }
    lemma_blank_token();
    assert(set![k1, k2].remove(k1) =~= set![k2]);
    assert(set![k2].remove(k2) =~= Set::<Seq<u8>>::empty());
    assert(Set::<Seq<u8>>::empty().insert(k1) =~= set![k1]);
    assert(set![k1].insert(k2) =~= set![k1, k2]);
}

/// Once the peer's success is recorded, the server writes `SYNC_SUCCESS` and
/// closes with success; if writing that acknowledgment fails, the session ends
/// with the failure instead.
pub proof fn lemma_success_needs_acknowledgment(peer: Seq<char>, updated_end: Seq<char>, failure: Error)
    ensures
        ({
            let (s1, a1) = server_step(ServerPhase::Committing { peer, updated_end }, EventModel::Stored);
            let (s2, a2) = server_step(s1, EventModel::Failed(failure));
            &&& a1.write == seq![SYNC_SUCCESS]
            &&& a1.next == StepModel::Close(Outcome::Success)
            &&& s2 == ServerPhase::Terminated(Outcome::Failed(failure))
            &&& a2.write.len() == 0
            &&& a2.next == StepModel::Close(Outcome::Failed(failure))
        }),
{
}

/// Ending an active session sends the right terminal byte once and releases
/// the session; ending it again fails with `NotStarted`.
pub proof fn lemma_end_sync_once(c: ClientModel, success: bool)
    requires
        c.phase matches ClientPhase::Active { .. },
    ensures
        client_end(c, success).1 == Ok::<u8, Error>(
            if success {
                SYNC_SUCCESS
            } else {
                SYNC_FAILED
            },
        ),
        client_end(c, success).0.phase == ClientPhase::Idle,
        client_end(client_end(c, success).0, success).1 == Err::<u8, Error>(Error::NotStarted),
{
}

} // verus!
