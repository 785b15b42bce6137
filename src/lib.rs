//! The synchronization protocol engine of a peer-to-peer note-taking app.
//!
//! Two devices joined by one byte stream exchange identities, pass a
//! permission gate, and move note and thread data through a small request and
//! reply protocol. The engine is free of I/O: the server session and the
//! client are state machines that say what to write and what to read next,
//! and the host performs it.
//!
//! - `codec`: the wire format: tokens, length prefixes, reply frames.
//! - `bridge`: single-flight, timeout-bounded calls into the host.
//! - `server`: the server session.
//! - `client`: the client, with correlation of replies to requests.
//! - `protocol`: what holds when a client and a server talk to each other.
pub mod bridge;
pub mod client;
pub mod codec;
pub mod error;
pub mod protocol;
pub mod server;
