use vstd::prelude::*;
use vstd::utf8::*;
use vstd::string::*;

use crate::error::Error;

verus! {

/// Length in bytes of an identity or correlation token on the wire.
pub const TOKEN_LEN: usize = 36;

/// Request id: thread updates since the last synchronization.
pub const REQUEST_THREAD_UPDATES: u8 = 0;
/// Request id: every note in one thread.
pub const REQUEST_ALL_NOTES_IN_THREAD: u8 = 1;
/// Request id: every note under one parent note.
pub const REQUEST_ALL_NOTES_IN_TREE: u8 = 2;
/// Request id: note updates in one thread.
pub const REQUEST_NOTE_UPDATES_IN_THREAD: u8 = 3;
/// Request id: note updates under one parent note.
pub const REQUEST_NOTE_UPDATES_IN_TREE: u8 = 4;
/// Permission byte: the server accepts the peer.
pub const SYNC_ALLOWED: u8 = 5;
/// Permission byte: the server refuses the peer.
pub const SYNC_REJECTED: u8 = 6;
/// Terminal byte: the client finished successfully (and the server's acknowledgment).
pub const SYNC_SUCCESS: u8 = 7;
/// Terminal byte: the client gave up.
pub const SYNC_FAILED: u8 = 8;

/// The space character, which fills the blank correlation token.
pub const BLANK: u8 = 0x20;

/// The little-endian encoding of a 32-bit length prefix.
pub open spec fn le_u32_bytes(n: u32) -> Seq<u8> {
    seq![
        (n & 0xff) as u8,
        ((n >> 8u32) & 0xff) as u8,
        ((n >> 16u32) & 0xff) as u8,
        ((n >> 24u32) & 0xff) as u8,
    ]
}

/// The value of four little-endian bytes.
pub open spec fn le_u32_value(b: Seq<u8>) -> u32
    recommends
        b.len() == 4,
{
    (b[0] as u32) | ((b[1] as u32) << 8u32) | ((b[2] as u32) << 16u32) | ((b[3] as u32) << 24u32)
}

/// The correlation token of a reply to a request that names no thread or note:
/// 36 spaces.
pub open spec fn blank_token() -> Seq<u8> {
    Seq::new(TOKEN_LEN as nat, |i: int| BLANK)
}

/// The UTF-8 bytes of a text.
pub open spec fn text_bytes(s: Seq<char>) -> Seq<u8> {
    encode_utf8(s)
}

/// A well-formed token: exactly 36 bytes of UTF-8 text.
pub open spec fn is_token(b: Seq<u8>) -> bool {
    b.len() == TOKEN_LEN && valid_utf8(b)
}

/// A text whose UTF-8 encoding is a well-formed token.
pub open spec fn is_identity(s: Seq<char>) -> bool {
    text_bytes(s).len() == TOKEN_LEN
}

/// A payload framed by its 4-byte little-endian length.
pub open spec fn length_prefixed(data: Seq<u8>) -> Seq<u8> {
    le_u32_bytes(data.len() as u32) + data
}

/// A data reply: the correlation token, then the length-prefixed payload.
pub open spec fn correlated_frame(token: Seq<u8>, data: Seq<u8>) -> Seq<u8> {
    token + length_prefixed(data)
}

/// Decoding the length prefix gives back the length that was encoded.
pub proof fn lemma_u32_le_round_trip(n: u32)
    ensures
        le_u32_value(le_u32_bytes(n)) == n,
{
    let b0: u8 = (n & 0xff) as u8;
    let b1: u8 = ((n >> 8u32) & 0xff) as u8;
    let b2: u8 = ((n >> 16u32) & 0xff) as u8;
    let b3: u8 = ((n >> 24u32) & 0xff) as u8;
    assert((b0 as u32) | ((b1 as u32) << 8u32) | ((b2 as u32) << 16u32) | ((b3 as u32) << 24u32)
        == n) by (bit_vector)
        requires
            b0 == (n & 0xff) as u8,
            b1 == ((n >> 8u32) & 0xff) as u8,
            b2 == ((n >> 16u32) & 0xff) as u8,
            b3 == ((n >> 24u32) & 0xff) as u8,
    ;
}

/// Text decoded from a token is the token's text again when encoded.
pub proof fn lemma_token_text_round_trip(b: Seq<u8>)
    requires
        is_token(b),
    ensures
        text_bytes(decode_utf8(b)) == b,
        is_identity(decode_utf8(b)),
{
    decode_utf8_encode_utf8(b);
}

/// The bytes of a text are valid UTF-8 that decodes to the text again.
pub proof fn lemma_text_round_trip(s: Seq<char>)
    ensures
        valid_utf8(text_bytes(s)),
        decode_utf8(text_bytes(s)) == s,
{
    encode_utf8_valid_utf8(s);
    encode_utf8_decode_utf8(s);
}

/// The text of the blank token: 36 spaces.
pub open spec fn blank_text() -> Seq<char> {
    Seq::new(TOKEN_LEN as nat, |i: int| ' ')
}

/// The blank token is the text of 36 spaces, and so a well-formed token.
pub proof fn lemma_blank_token()
    ensures
        blank_token() == text_bytes(blank_text()),
        is_token(blank_token()),
{
    is_ascii_chars_encode_utf8(blank_text());
    assert(encode_utf8(blank_text()) =~= blank_token());
    encode_utf8_valid_utf8(blank_text());
}

/// Two texts with the same bytes are the same text.
pub proof fn lemma_text_bytes_injective(s: Seq<char>, t: Seq<char>)
    requires
        text_bytes(s) == text_bytes(t),
    ensures
        s == t,
{
    lemma_text_round_trip(s);
    lemma_text_round_trip(t);
}

/// Encodes `n` as four little-endian bytes.
pub fn encode_u32_le(n: u32) -> (r: Vec<u8>)
    ensures
        r@ == le_u32_bytes(n),
{
    let mut r: Vec<u8> = Vec::new();
    r.push((n & 0xff) as u8);
    r.push(((n >> 8u32) & 0xff) as u8);
    r.push(((n >> 16u32) & 0xff) as u8);
    r.push(((n >> 24u32) & 0xff) as u8);
    assert(r@ =~= le_u32_bytes(n));
    r
}

/// Reads a 32-bit value from four little-endian bytes.
pub fn decode_u32_le(b: &[u8]) -> (r: u32)
    requires
        b@.len() == 4,
    ensures
        r == le_u32_value(b@),
{
    (b[0] as u32) | ((b[1] as u32) << 8u32) | ((b[2] as u32) << 16u32) | ((b[3] as u32) << 24u32)
}

/// The blank correlation token: 36 spaces.
pub fn blank_token_bytes() -> (r: Vec<u8>)
    ensures
        r@ == blank_token(),
{
    let mut r: Vec<u8> = Vec::new();
    while r.len() < TOKEN_LEN
        invariant
            r@.len() <= TOKEN_LEN,
            forall|i: int| 0 <= i < r@.len() ==> r@[i] == BLANK,
        decreases TOKEN_LEN - r@.len(),
    {
        r.push(BLANK);
    }
    assert(r@ =~= blank_token());
    r
}

/// Appends `data` to `r`.
pub fn push_all(r: &mut Vec<u8>, data: &[u8])
    ensures
        final(r)@ == old(r)@ + data@,
{
    let ghost start = r@;
    let mut i: usize = 0;
    while i < data.len()
        invariant
            i <= data@.len(),
            r@ == start + data@.subrange(0, i as int),
        decreases data@.len() - i,
    {
        r.push(data[i]);
        i += 1;
        assert(r@ =~= start + data@.subrange(0, i as int));
    }
    assert(data@.subrange(0, data@.len() as int) =~= data@);
}

/// Relies on `String::from_utf8`: it succeeds exactly on valid UTF-8, and the
/// text it returns is what those bytes encode.
#[verifier::external_body]
fn decode_text(bytes: Vec<u8>) -> (r: Option<String>)
    ensures
        r.is_some() == valid_utf8(bytes@),
        r matches Some(s) ==> s@ == decode_utf8(bytes@),
{
    String::from_utf8(bytes).ok()
}

/// The UTF-8 bytes of a text.
pub fn text_to_bytes(s: &str) -> (r: Vec<u8>)
    ensures
        r@ == text_bytes(s@),
{
    s.as_bytes_vec()
}

/// Decodes UTF-8 text, as received in a payload.
pub fn decode_payload(bytes: Vec<u8>) -> (r: Result<String, Error>)
    ensures
        r is Ok <==> valid_utf8(bytes@),
        r matches Ok(s) ==> s@ == decode_utf8(bytes@),
        r matches Err(e) ==> e == Error::Decode,
{
    match decode_text(bytes) {
        Some(s) => Ok(s),
        None => Err(Error::Decode),
    }
}

/// Decodes the 36 bytes of an identity or correlation token read from the stream.
pub fn read_uuid(bytes: &[u8]) -> (r: Result<String, Error>)
    ensures
        r is Ok <==> is_token(bytes@),
        r matches Ok(s) ==> s@ == decode_utf8(bytes@),
        r matches Err(e) ==> e == (if bytes@.len() == TOKEN_LEN {
            Error::Decode
        } else {
            Error::InvalidToken
        }),
{
    if bytes.len() != TOKEN_LEN {
        return Err(Error::InvalidToken);
    }
    let mut owned: Vec<u8> = Vec::new();
    push_all(&mut owned, bytes);
    decode_payload(owned)
}

/// Frames a payload by its 4-byte little-endian length.
pub fn encode_length_prefixed(data: &[u8]) -> (r: Result<Vec<u8>, Error>)
    ensures
        r is Ok <==> data@.len() <= u32::MAX,
        r matches Ok(v) ==> v@ == length_prefixed(data@),
        r matches Err(e) ==> e == Error::PayloadTooLarge,
{
    if data.len() > u32::MAX as usize {
        return Err(Error::PayloadTooLarge);
    }
    let mut r = encode_u32_le(data.len() as u32);
    push_all(&mut r, data);
    Ok(r)
}

/// Frames a data reply: the correlation token, then the length-prefixed payload.
pub fn encode_correlated_payload(token: &[u8], data: &[u8]) -> (r: Result<Vec<u8>, Error>)
    ensures
        r is Ok <==> data@.len() <= u32::MAX,
        r matches Ok(v) ==> v@ == correlated_frame(token@, data@),
        r matches Err(e) ==> e == Error::PayloadTooLarge,
{
    let body = encode_length_prefixed(data)?;
    let mut r: Vec<u8> = Vec::new();
    push_all(&mut r, token);
    push_all(&mut r, &body);
    Ok(r)
}

} // verus!
