//! The data carried by the transport: the backup slot's contents, the shapes
//! of the remote store's responses, and the error taxonomy.

use vstd::prelude::*;

verus! {

/// The client-visible contents of the remote backup slot: the generation the
/// store assigned on the last accepted write, and the opaque payload. The
/// transport never inspects the payload's bytes.
pub struct BackupState {
    pub generation: u64,
    pub data: Vec<u8>,
}

/// Mathematical view of a [`BackupState`].
pub ghost struct BackupStateView {
    pub generation: u64,
    pub data: Seq<u8>,
}

impl View for BackupState {
    type V = BackupStateView;

    open spec fn view(&self) -> BackupStateView {
        BackupStateView { generation: self.generation, data: self.data@ }
    }
}

/// Why a transport operation failed.
#[derive(Clone, Copy, Debug, PartialEq, Eq, Structural)]
pub enum BackupError {
    /// The underlying connection or RPC failed. The caller decides whether to
    /// retry; the transport never does.
    Transport,
    /// A conditional write was rejected because the expected version did not
    /// match the remote state. The caller should pull fresh state and retry.
    Conflict,
    /// The remote store answered in a way that violates the protocol: several
    /// entries under the one key, or a guaranteed field missing. Not
    /// recoverable locally.
    Protocol,
}

/// The condition attached to a conditional write.
#[derive(Clone, Copy, Debug, PartialEq, Eq, Structural)]
pub enum DatastoreMode {
    /// The key must not exist yet.
    MustCreate,
    /// The key must already exist.
    MustReplace,
}

/// One entry of a list response, as it arrives from the remote store. The
/// wire format marks both fields optional, although the store guarantees that
/// a stored entry always carries both; an absence is a protocol violation.
pub struct ListEntry {
    pub generation: Option<u64>,
    pub data: Option<Vec<u8>>,
}

/// A conditional-write reply, as it arrives from the remote store. The wire
/// format marks the assigned generation optional, although the store
/// guarantees it on every accepted write.
pub struct WriteReply {
    pub generation: Option<u64>,
}

/// Outcome of a conditional write at the store boundary: the store either
/// accepts and reports the newly assigned generation, or rejects the write
/// because its condition did not hold.
pub enum WriteOutcome {
    Accepted(WriteReply),
    Rejected,
}

/// The write mode the transport derives from the version its caller last
/// observed: a first write must create the slot, any later write must replace
/// it.
pub open spec fn mode_for(expected_version: Option<u64>) -> DatastoreMode {
    match expected_version {
        None => DatastoreMode::MustCreate,
        Some(_) => DatastoreMode::MustReplace,
    }
}

} // verus!
