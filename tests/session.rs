use bluenote_bluetooth::client::SyncClient;
use bluenote_bluetooth::codec::decode_u32_le;
use bluenote_bluetooth::error::Error;
use bluenote_bluetooth::server::{Outcome, Query, ServerEvent, ServerStep, SyncServerSession};

const SERVER_ID: &str = "11111111-1111-1111-1111-111111111111";
const CLIENT_ID: &str = "22222222-2222-2222-2222-222222222222";
const NOW: &str = "2024-01-01T00:00:00Z";

/// A Data Provider that answers every query the way the scenario says.
fn answer(q: &Query, allow: bool, notes: &str) -> ServerEvent {
    match q {
        Query::MyIdentity => ServerEvent::Text(SERVER_ID.to_string()),
        Query::SyncPermission(p) => {
            assert_eq!(p.uuid, CLIENT_ID);
            ServerEvent::Permission(allow)
        }
        Query::Now => ServerEvent::Text(NOW.to_string()),
        Query::ThreadUpdates(p) => {
            assert_eq!(p.uuid, CLIENT_ID);
            assert_eq!(p.updated_end, NOW);
            ServerEvent::Text("[]".to_string())
        }
        Query::AllNotesInThread(_) => ServerEvent::Text(notes.to_string()),
        Query::UpdateSyncedAt(_) => ServerEvent::Stored,
        _ => ServerEvent::Text("[]".to_string()),
    }
}

/// Runs the server on the bytes `input` until it needs more than are left;
/// returns what it wrote and whether it closed.
fn run_server(
    s: &mut SyncServerSession,
    pending_read: &mut Option<usize>,
    input: &mut Vec<u8>,
    allow: bool,
    notes: &str,
) -> (Vec<u8>, Option<Outcome>) {
    let mut out = Vec::new();
    loop {
        let n = match *pending_read {
            Some(n) if input.len() >= n => n,
            _ => return (out, None),
        };
        let chunk: Vec<u8> = input.drain(..n).collect();
        let mut a = s.step(ServerEvent::Received(chunk));
        loop {
            out.extend_from_slice(&a.write);
            match a.next {
                ServerStep::Query(q) => a = s.step(answer(&q, allow, notes)),
                ServerStep::Read(n) => {
                    *pending_read = Some(n);
                    break;
                }
                ServerStep::Close(o) => {
                    *pending_read = None;
                    return (out, Some(o));
                }
            }
        }
    }
}

/// Starts a server: returns it with its identity bytes and first read size.
fn start_server() -> (SyncServerSession, Vec<u8>, Option<usize>) {
    let (mut s, first) = SyncServerSession::new();
    let q = match first.next {
        ServerStep::Query(q) => q,
        _ => panic!("the session starts with a query"),
    };
    let a = s.step(answer(&q, true, ""));
    let n = match a.next {
        ServerStep::Read(n) => n,
        _ => panic!("the session reads the peer's identity"),
    };
    (s, a.write, Some(n))
}

/// The client reads one reply frame from `bytes`, as its demultiplexer does.
fn read_reply(c: &mut SyncClient, bytes: &[u8]) -> (String, String) {
    let token = c.receive_response(&bytes[..36]).unwrap();
    let len = decode_u32_le(&bytes[36..40]) as usize;
    assert_eq!(bytes.len(), 40 + len);
    let payload = c.receive_payload(bytes[40..].to_vec()).unwrap();
    (token, payload)
}

#[test]
fn thread_updates_scenario() {
    let (mut s, server_hello, mut read) = start_server();
    let mut c = SyncClient::create_instance(CLIENT_ID.to_string(), "device".to_string());
    let mut to_server = c.begin_sync(vec![SERVER_ID.to_string()]).unwrap();
    let (to_client, closed) = run_server(&mut s, &mut read, &mut to_server, true, "");
    assert_eq!(closed, None);
    assert_eq!(c.receive_identity(&server_hello), Ok(SERVER_ID.to_string()));
    assert_eq!(to_client, vec![5]);
    assert_eq!(c.receive_permission(to_client[0]), Ok(()));

    let mut req = c.request_data(0, None).unwrap();
    let (reply, _) = run_server(&mut s, &mut read, &mut req, true, "");
    let (token, json) = read_reply(&mut c, &reply);
    assert_eq!(token, " ".repeat(36));
    assert_eq!(json, "[]");

    assert_eq!(c.end_sync(true), Ok(7));
    let (ack, closed) = run_server(&mut s, &mut read, &mut vec![7], true, "");
    assert_eq!(ack, vec![7]);
    assert_eq!(closed, Some(Outcome::Success));
}

#[test]
fn thread_round_trip_scenario() {
    let thread = "33333333-3333-3333-3333-333333333333";
    let notes = "[{\"id\":\"n1\",\"text\":\"メモ\"}]";
    let (mut s, server_hello, mut read) = start_server();
    let mut c = SyncClient::create_instance(CLIENT_ID.to_string(), "device".to_string());
    let mut to_server = c.begin_sync(vec![SERVER_ID.to_string()]).unwrap();
    let (to_client, _) = run_server(&mut s, &mut read, &mut to_server, true, notes);
    c.receive_identity(&server_hello).unwrap();
    c.receive_permission(to_client[0]).unwrap();

    let mut req = c.request_data(1, Some(thread.to_string())).unwrap();
    let (reply, _) = run_server(&mut s, &mut read, &mut req, true, notes);
    let (token, json) = read_reply(&mut c, &reply);
    assert_eq!(token, thread);
    assert_eq!(json, notes);

    assert_eq!(c.end_sync(false), Ok(8));
    let (out, closed) = run_server(&mut s, &mut read, &mut vec![8], true, notes);
    assert!(out.is_empty());
    assert_eq!(closed, Some(Outcome::PeerFailed));
}

#[test]
fn back_to_back_requests_scenario() {
    let t1 = "44444444-4444-4444-4444-444444444444";
    let t2 = "55555555-5555-5555-5555-555555555555";
    let (mut s, server_hello, mut read) = start_server();
    let mut c = SyncClient::create_instance(CLIENT_ID.to_string(), "device".to_string());
    let mut to_server = c.begin_sync(vec![SERVER_ID.to_string()]).unwrap();
    let (to_client, _) = run_server(&mut s, &mut read, &mut to_server, true, "[1]");
    c.receive_identity(&server_hello).unwrap();
    c.receive_permission(to_client[0]).unwrap();

    let mut both = c.request_data(1, Some(t1.to_string())).unwrap();
    both.extend(c.request_data(0, None).unwrap());
    both.extend(c.request_data(1, Some(t2.to_string())).unwrap());
    let (replies, _) = run_server(&mut s, &mut read, &mut both, true, "[1]");
    let first = 40 + 3;
    let second = first + 40 + 2;
    assert_eq!(read_reply(&mut c, &replies[..first]), (t1.to_string(), "[1]".to_string()));
    assert_eq!(
        read_reply(&mut c, &replies[first..second]),
        (" ".repeat(36), "[]".to_string())
    );
    assert_eq!(read_reply(&mut c, &replies[second..]), (t2.to_string(), "[1]".to_string()));
}

#[test]
fn rejected_scenario() {
    let (mut s, server_hello, mut read) = start_server();
    let mut c = SyncClient::create_instance(CLIENT_ID.to_string(), "device".to_string());
    let mut to_server = c.begin_sync(vec![SERVER_ID.to_string()]).unwrap();
    let (to_client, closed) = run_server(&mut s, &mut read, &mut to_server, false, "");
    assert_eq!(to_client, vec![6]);
    assert_eq!(closed, Some(Outcome::Rejected));
    c.receive_identity(&server_hello).unwrap();
    assert_eq!(c.receive_permission(to_client[0]), Err(Error::SyncNotAllowed));
    assert_eq!(c.request_data(0, None), Err(Error::NotConnected));
}

#[test]
fn not_enabled_scenario() {
    let (_, server_hello, _) = start_server();
    let mut c = SyncClient::create_instance(CLIENT_ID.to_string(), "device".to_string());
    c.begin_sync(vec!["99999999-9999-9999-9999-999999999999".to_string()]).unwrap();
    assert_eq!(c.receive_identity(&server_hello), Err(Error::SyncNotEnabled));
    assert_eq!(c.request_data(0, None), Err(Error::NotConnected));
}
