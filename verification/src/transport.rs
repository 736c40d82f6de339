//! The pull/push protocol: the fixed key, the request derivations, the
//! interpretation of the store's responses, and the two operations run
//! against the in-memory store model.

use vstd::prelude::*;

use crate::state::{mode_for, BackupError, BackupState, BackupStateView, DatastoreMode,
    ListEntry};
use crate::state::WriteOutcome;
use crate::store::{next_generation, InMemoryStore};

verus! {

/// The transport's protocol core, bound to the application's one reserved
/// slot in the remote store's keyspace. It holds no state between calls —
/// the remote store is the sole source of truth — so a value of this type
/// only carries the protocol: the surrounding application keeps the
/// connection, addresses its RPCs with [`gl_key`](Self::gl_key), derives the
/// write condition with [`push_mode`](Self::push_mode), and hands the raw
/// responses back for interpretation.
pub struct GLBackupTransport {}

impl GLBackupTransport {
    /// The fixed, namespaced datastore key under which the backup slot
    /// lives: two path components, constant across all calls.
    pub fn gl_key(&self) -> (r: Vec<String>)
        ensures
            r@.len() == 2,
            r@[0]@ == "breez-sdk"@,
            r@[1]@ == "backup"@,
    {
        let mut key: Vec<String> = Vec::new();
        key.push(String::from_str("breez-sdk"));
        key.push(String::from_str("backup"));
        key
    }

    /// Derives the conditional-write mode from the version the caller last
    /// observed: a caller that saw no backup must create the slot, any
    /// other must replace it.
    pub fn push_mode(&self, expected_version: Option<u64>) -> (r: DatastoreMode)
        ensures
            r == mode_for(expected_version),
    {
        match expected_version {
            None => DatastoreMode::MustCreate,
            Some(_) => DatastoreMode::MustReplace,
        }
    }
}

/// Turns a list response into the current backup state. Exactly three
/// outcomes are defined: no entry means no backup exists yet; one entry with
/// both fields populated is the current state; anything else — several
/// entries, or a guaranteed field missing — is a protocol violation.
pub fn interpret_list_response(entries: Vec<ListEntry>) -> (r: Result<
    Option<BackupState>,
    BackupError,
>)
    ensures
        entries@.len() == 0 ==> (r matches Ok(o) && o is None),
        entries@.len() == 1 ==> (match (entries@[0].generation, entries@[0].data) {
            (Some(g), Some(d)) => r matches Ok(o) && o matches Some(b)
                && b@ == (BackupStateView { generation: g, data: d@ }),
            _ => r matches Err(e) && e == BackupError::Protocol,
        }),
        entries@.len() >= 2 ==> (r matches Err(e) && e == BackupError::Protocol),
{
    let mut entries = entries;
    if entries.len() == 0 {
        Ok(None)
    } else if entries.len() == 1 {
        let entry = entries.pop().unwrap();
        match (entry.generation, entry.data) {
            (Some(generation), Some(data)) => Ok(Some(BackupState { generation, data })),
            _ => Err(BackupError::Protocol),
        }
    } else {
        Err(BackupError::Protocol)
    }
}

/// Turns a conditional-write reply into the newly assigned generation. The
/// store guarantees the field on every accepted write, so its absence is a
/// protocol violation.
pub fn interpret_write_response(generation: Option<u64>) -> (r: Result<u64, BackupError>)
    ensures
        generation matches Some(g) ==> (r matches Ok(n) && n == g),
        generation is None ==> (r matches Err(e) && e == BackupError::Protocol),
{
    match generation {
        Some(g) => Ok(g),
        None => Err(BackupError::Protocol),
    }
}

/// Whether a push that states `expected_version` as the version last
/// observed is accepted against the slot state `pre`: a first write demands
/// an absent slot, any other demands the stored generation to equal the
/// stated one.
pub open spec fn push_accepted(
    pre: Option<BackupStateView>,
    expected_version: Option<u64>,
) -> bool {
    match expected_version {
        None => pre is None,
        Some(v) => pre matches Some(s) && s.generation == v,
    }
}

/// The slot state after a push attempt: an accepted push installs the new
/// data under the next generation; a rejected one changes nothing.
pub open spec fn state_after_push(
    pre: Option<BackupStateView>,
    expected_version: Option<u64>,
    data: Seq<u8>,
) -> Option<BackupStateView> {
    if push_accepted(pre, expected_version) {
        Some(BackupStateView { generation: next_generation(pre), data })
    } else {
        pre
    }
}

/// Reads the backup slot. Returns the current state, or nothing when no
/// backup exists yet; read-only in every case.
pub fn pull(store: &InMemoryStore) -> (r: Result<Option<BackupState>, BackupError>)
    ensures
        store@ is None ==> (r matches Ok(o) && o is None),
        store@ matches Some(s) ==> (r matches Ok(o) && o matches Some(b) && b@ == s),
{
    interpret_list_response(store.list())
}

/// Conditionally writes a new payload to the backup slot. `expected_version`
/// is the generation the caller last observed, or `None` if the caller
/// believes no backup exists yet. An accepted push returns the generation
/// the store assigned — one more than the replaced generation, 1 for a first
/// write — and a rejected one fails with `Conflict`, leaving the slot
/// untouched, so a stale caller never silently overwrites newer state.
pub fn push(store: &mut InMemoryStore, expected_version: Option<u64>, data: Vec<u8>) -> (r:
    Result<u64, BackupError>)
    requires
        expected_version matches Some(v) ==> v < u64::MAX,
    ensures
        final(store)@ == state_after_push(old(store)@, expected_version, data@),
        push_accepted(old(store)@, expected_version) ==> (r matches Ok(g)
            && g == next_generation(old(store)@)),
        !push_accepted(old(store)@, expected_version) ==> (r matches Err(e)
            && e == BackupError::Conflict),
{
    let transport = GLBackupTransport {};
    let mode = transport.push_mode(expected_version);
    match store.conditional_write(data, expected_version, mode) {
        WriteOutcome::Accepted(reply) => interpret_write_response(reply.generation),
        WriteOutcome::Rejected => Err(BackupError::Conflict),
    }
}

} // verus!
