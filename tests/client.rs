use bluenote_bluetooth::client::SyncClient;
use bluenote_bluetooth::error::Error;

const SERVER_ID: &str = "11111111-1111-1111-1111-111111111111";
const CLIENT_ID: &str = "22222222-2222-2222-2222-222222222222";
const THREAD_A: &str = "aaaaaaaa-aaaa-aaaa-aaaa-aaaaaaaaaaaa";
const THREAD_B: &str = "bbbbbbbb-bbbb-bbbb-bbbb-bbbbbbbbbbbb";

fn active() -> SyncClient {
    let mut c = SyncClient::create_instance(CLIENT_ID.to_string(), "device".to_string());
    c.begin_sync(vec![SERVER_ID.to_string()]).unwrap();
    c.receive_identity(SERVER_ID.as_bytes()).unwrap();
    c.receive_permission(5).unwrap();
    c
}

#[test]
fn begin_sync_sends_own_identity() {
    let mut c = SyncClient::create_instance(CLIENT_ID.to_string(), "device".to_string());
    assert_eq!(c.companion_device_id(), "device");
    assert_eq!(c.begin_sync(vec![]), Ok(CLIENT_ID.as_bytes().to_vec()));
}

#[test]
fn begin_sync_rejects_a_bad_identity() {
    let mut c = SyncClient::create_instance("me".to_string(), "device".to_string());
    assert_eq!(c.begin_sync(vec![]), Err(Error::InvalidToken));
}

#[test]
fn handshake_reaches_active() {
    let mut c = SyncClient::create_instance(CLIENT_ID.to_string(), "device".to_string());
    c.begin_sync(vec![THREAD_A.to_string(), SERVER_ID.to_string()]).unwrap();
    assert_eq!(c.receive_identity(SERVER_ID.as_bytes()), Ok(SERVER_ID.to_string()));
    assert!(!c.is_active());
    assert_eq!(c.receive_permission(5), Ok(()));
    assert!(c.is_active());
}

#[test]
fn unknown_server_is_not_enabled() {
    let mut c = SyncClient::create_instance(CLIENT_ID.to_string(), "device".to_string());
    c.begin_sync(vec![THREAD_A.to_string()]).unwrap();
    assert_eq!(c.receive_identity(SERVER_ID.as_bytes()), Err(Error::SyncNotEnabled));
    assert_eq!(c.receive_permission(5), Err(Error::ProtocolViolation));
    assert_eq!(c.request_data(0, None), Err(Error::NotConnected));
}

#[test]
fn rejected_permission_is_not_allowed() {
    let mut c = SyncClient::create_instance(CLIENT_ID.to_string(), "device".to_string());
    c.begin_sync(vec![SERVER_ID.to_string()]).unwrap();
    c.receive_identity(SERVER_ID.as_bytes()).unwrap();
    assert_eq!(c.receive_permission(6), Err(Error::SyncNotAllowed));
    assert!(!c.is_active());
    assert_eq!(c.request_data(0, None), Err(Error::NotConnected));
}

#[test]
fn server_identity_that_is_not_utf8_fails() {
    let mut c = SyncClient::create_instance(CLIENT_ID.to_string(), "device".to_string());
    c.begin_sync(vec![SERVER_ID.to_string()]).unwrap();
    let mut bytes = SERVER_ID.as_bytes().to_vec();
    bytes[35] = 0x80;
    assert_eq!(c.receive_identity(&bytes), Err(Error::Decode));
}

#[test]
fn request_frames() {
    let mut c = active();
    assert_eq!(c.request_data(0, None), Ok(vec![0]));
    let mut expected = vec![1];
    expected.extend_from_slice(THREAD_A.as_bytes());
    assert_eq!(c.request_data(1, Some(THREAD_A.to_string())), Ok(expected));
}

#[test]
fn duplicate_request_is_refused() {
    let mut c = active();
    c.request_data(1, Some(THREAD_A.to_string())).unwrap();
    assert_eq!(c.request_data(3, Some(THREAD_A.to_string())), Err(Error::DuplicateRequest));
    c.request_data(0, None).unwrap();
    assert_eq!(c.request_data(0, None), Err(Error::DuplicateRequest));
}

#[test]
fn request_with_bad_id_is_refused() {
    let mut c = active();
    assert_eq!(c.request_data(1, Some("short".to_string())), Err(Error::InvalidToken));
}

#[test]
fn two_requests_get_their_own_replies() {
    let mut c = active();
    c.request_data(1, Some(THREAD_A.to_string())).unwrap();
    c.request_data(1, Some(THREAD_B.to_string())).unwrap();
    assert_eq!(c.receive_response(THREAD_A.as_bytes()), Ok(THREAD_A.to_string()));
    // The next token may not be read before this reply's payload.
    assert_eq!(c.receive_response(THREAD_B.as_bytes()), Err(Error::ProtocolViolation));
    assert_eq!(c.receive_payload(b"[\"a\"]".to_vec()), Ok("[\"a\"]".to_string()));
    assert_eq!(c.receive_response(THREAD_B.as_bytes()), Ok(THREAD_B.to_string()));
    assert_eq!(c.receive_payload(b"[\"b\"]".to_vec()), Ok("[\"b\"]".to_string()));
    // Both are complete: a repeated reply belongs to no request.
    assert_eq!(c.receive_response(THREAD_A.as_bytes()), Err(Error::ProtocolViolation));
}

#[test]
fn reply_for_unknown_token_is_a_violation() {
    let mut c = active();
    c.request_data(1, Some(THREAD_A.to_string())).unwrap();
    assert_eq!(c.receive_response(THREAD_B.as_bytes()), Err(Error::ProtocolViolation));
    assert_eq!(c.receive_payload(vec![]), Err(Error::ProtocolViolation));
}

#[test]
fn payload_that_is_not_utf8_ends_the_session() {
    let mut c = active();
    c.request_data(0, None).unwrap();
    c.receive_response(&[b' '; 36]).unwrap();
    assert_eq!(c.receive_payload(vec![0xff, 0xfe]), Err(Error::Decode));
    assert!(!c.is_active());
    assert_eq!(c.request_data(0, None), Err(Error::NotConnected));
    assert_eq!(c.end_sync(false), Err(Error::NotStarted));
}

#[test]
fn reply_token_that_is_not_utf8_ends_the_session() {
    let mut c = active();
    c.request_data(1, Some(THREAD_A.to_string())).unwrap();
    let mut token = THREAD_A.as_bytes().to_vec();
    token[0] = 0xc0;
    assert_eq!(c.receive_response(&token), Err(Error::Decode));
    assert!(!c.is_active());
    assert_eq!(c.receive_payload(vec![]), Err(Error::NotConnected));
}

#[test]
fn end_sync_success_then_not_started() {
    let mut c = active();
    assert_eq!(c.end_sync(true), Ok(7));
    assert!(!c.is_active());
    assert_eq!(c.end_sync(true), Err(Error::NotStarted));
}

#[test]
fn end_sync_failure_on_fresh_session() {
    let mut c = active();
    assert_eq!(c.end_sync(true), Ok(7));
    c.begin_sync(vec![SERVER_ID.to_string()]).unwrap();
    c.receive_identity(SERVER_ID.as_bytes()).unwrap();
    c.receive_permission(5).unwrap();
    assert_eq!(c.end_sync(false), Ok(8));
    assert_eq!(c.end_sync(false), Err(Error::NotStarted));
}

#[test]
fn end_sync_without_session() {
    let mut c = SyncClient::create_instance(CLIENT_ID.to_string(), "device".to_string());
    assert_eq!(c.end_sync(false), Err(Error::NotStarted));
}

#[test]
fn abort_tears_down() {
    let mut c = active();
    c.abort();
    assert!(!c.is_active());
    assert_eq!(c.request_data(0, None), Err(Error::NotConnected));
    assert_eq!(c.end_sync(true), Err(Error::NotStarted));
}
