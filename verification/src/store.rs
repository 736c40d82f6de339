//! An in-memory model of the remote datastore slot.
//!
//! The remote store keeps at most one entry under the transport's key and
//! enforces the conditional-write rules atomically. This module implements
//! those documented semantics over a plain value, so the transport's
//! behaviour against the store — which entries a list reports, when a write
//! is accepted, and which generation the store assigns — is stated and
//! proved here rather than assumed. It also serves as a reference backend
//! for callers that want the protocol without a remote node.

use vstd::prelude::*;

use crate::state::{BackupState, BackupStateView, DatastoreMode, ListEntry, WriteOutcome,
    WriteReply};

verus! {

/// The remote slot as the store's documentation describes it: either never
/// written, or holding exactly one generation-stamped payload.
pub struct InMemoryStore {
    pub slot: Option<BackupState>,
}

impl View for InMemoryStore {
    type V = Option<BackupStateView>;

    open spec fn view(&self) -> Option<BackupStateView> {
        match self.slot {
            None => None,
            Some(s) => Some(s@),
        }
    }
}

/// Whether the store accepts a conditional write against the state `pre`:
/// `MustCreate` demands an absent slot, `MustReplace` a present one, and a
/// supplied expected generation must equal the stored one.
pub open spec fn write_accepted(
    pre: Option<BackupStateView>,
    expected_generation: Option<u64>,
    mode: DatastoreMode,
) -> bool {
    &&& (mode == DatastoreMode::MustCreate ==> pre is None)
    &&& (mode == DatastoreMode::MustReplace ==> pre is Some)
    &&& (expected_generation matches Some(v) ==> pre matches Some(s) && s.generation == v)
}

/// The generation the store assigns to an accepted write against the state
/// `pre`: one more than the stored generation, or 1 for a first write.
pub open spec fn next_generation(pre: Option<BackupStateView>) -> u64
    recommends
        pre matches Some(s) ==> s.generation < u64::MAX,
{
    match pre {
        None => 1u64,
        Some(s) => (s.generation + 1) as u64,
    }
}

impl InMemoryStore {
    /// A store whose slot has never been written.
    pub fn new() -> (r: InMemoryStore)
        ensures
            r@ is None,
    {
        InMemoryStore { slot: None }
    }

    /// Lists the entries under the key, as the remote store would: none when
    /// the slot is absent, exactly one — with generation and data both
    /// populated — when it is present.
    pub fn list(&self) -> (r: Vec<ListEntry>)
        ensures
            self@ is None ==> r@.len() == 0,
            self@ matches Some(s) ==> {
                &&& r@.len() == 1
                &&& r@[0].generation == Some(s.generation)
                &&& r@[0].data matches Some(d) && d@ == s.data
            },
    {
        let mut entries: Vec<ListEntry> = Vec::new();
        match &self.slot {
            None => {},
            Some(s) => {
                entries.push(ListEntry {
                    generation: Some(s.generation),
                    data: Some(copy_bytes(&s.data)),
                });
            },
        }
        entries
    }

    /// Performs a conditional write as the remote store does, atomically:
    /// when the condition holds, the slot takes the new data under the next
    /// generation, which the reply reports; otherwise the write is rejected
    /// and the slot is untouched.
    pub fn conditional_write(
        &mut self,
        data: Vec<u8>,
        expected_generation: Option<u64>,
        mode: DatastoreMode,
    ) -> (r: WriteOutcome)
        requires
            match old(self)@ {
                Some(s) => write_accepted(old(self)@, expected_generation, mode)
                    ==> s.generation < u64::MAX,
                None => true,
            },
        ensures
            write_accepted(old(self)@, expected_generation, mode) ==> {
                &&& r matches WriteOutcome::Accepted(reply)
                    && reply.generation == Some(next_generation(old(self)@))
                &&& final(self)@ == Some(BackupStateView {
                    generation: next_generation(old(self)@),
                    data: data@,
                })
            },
            !write_accepted(old(self)@, expected_generation, mode) ==> {
                &&& r is Rejected
                &&& final(self)@ == old(self)@
            },
    {
        let accepted: bool = match &self.slot {
            None => mode == DatastoreMode::MustCreate && expected_generation.is_none(),
            Some(s) => mode == DatastoreMode::MustReplace && (match expected_generation {
                None => true,
                Some(v) => v == s.generation,
            }),
        };
        if accepted {
            let new_generation: u64 = match &self.slot {
                None => 1,
                Some(s) => s.generation + 1,
            };
            self.slot = Some(BackupState { generation: new_generation, data });
            WriteOutcome::Accepted(WriteReply { generation: Some(new_generation) })
        } else {
            WriteOutcome::Rejected
        }
    }
}

/// Byte-for-byte copy of a payload, so a listed entry can hand out the
/// stored data without giving up the slot's own buffer.
fn copy_bytes(v: &Vec<u8>) -> (r: Vec<u8>)
    ensures
        r@ == v@,
{
    let mut out: Vec<u8> = Vec::new();
    let mut i: usize = 0;
    while i < v.len()
        invariant
            i <= v@.len(),
            out@ == v@.subrange(0, i as int),
        decreases v@.len() - i,
    {
        out.push(v[i]);
        proof {
            assert(out@ =~= v@.subrange(0, i as int + 1));
        }
        i = i + 1;
    }
    proof {
        assert(out@ =~= v@);
    }
    out
}

} // verus!
