//! Remote backup synchronization transport.
//!
//! A client keeps a single opaque binary state blob in a remote key-value
//! datastore owned by another service. The transport reads the blob back with
//! `pull` and writes a new revision with `push`, using a generation counter
//! that the remote store increments on every accepted write: a push states
//! the generation its caller last observed, and the store rejects the write
//! when that version is stale (optimistic concurrency), so no update is ever
//! silently lost.
//!
//! The crate holds the protocol itself: the fixed datastore key, the
//! derivation of the conditional-write mode, the interpretation of list and
//! write responses, and the generation rules of the store, proved against an
//! in-memory model of the remote slot. Establishing the RPC connection and
//! carrying the messages over the wire is the surrounding application's
//! concern.

pub mod laws;
pub mod state;
pub mod store;
pub mod transport;
