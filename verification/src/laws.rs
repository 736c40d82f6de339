//! The protocol's laws, stated over the slot-state model that the
//! transport's contracts use and proved once for all inputs.

use vstd::prelude::*;

use crate::state::BackupStateView;
use crate::store::next_generation;
use crate::transport::{push_accepted, state_after_push};

verus! {

/// The expected version a caller supplies when it has correctly chased the
/// slot: the generation it last observed, or none when it has seen no
/// backup.
pub open spec fn chased_version(pre: Option<BackupStateView>) -> Option<u64> {
    match pre {
        None => None,
        Some(s) => Some(s.generation),
    }
}

/// The slot state after pushing each payload of `datas` in order, every push
/// supplying the correctly chased expected version.
pub open spec fn chain_state(datas: Seq<Seq<u8>>) -> Option<BackupStateView>
    decreases datas.len(),
{
    if datas.len() == 0 {
        None
    } else {
        let pre = chain_state(datas.drop_last());
        state_after_push(pre, chased_version(pre), datas.last())
    }
}

/// A push that supplies the correctly chased expected version is always
/// accepted, whatever the slot holds.
pub proof fn lemma_chased_push_accepted(pre: Option<BackupStateView>)
    ensures
        push_accepted(pre, chased_version(pre)),
{
}

/// After `k` correctly chased pushes starting from an empty slot, the slot
/// holds the last payload under generation `k`.
pub proof fn lemma_chain_state(datas: Seq<Seq<u8>>)
    requires
        datas.len() <= u64::MAX,
    ensures
        datas.len() == 0 ==> chain_state(datas) is None,
        datas.len() > 0 ==> (chain_state(datas) matches Some(s) && s.generation == datas.len()
            && s.data == datas.last()),
    decreases datas.len(),
{
    if datas.len() > 0 {
        lemma_chain_state(datas.drop_last());
    }
}

/// Law: a run of pushes that each supply the version they last observed —
/// none for the first, the returned generation thereafter — is accepted
/// throughout, and the store assigns the generations 1, 2, 3, ...: strictly
/// increasing by exactly one per accepted push, starting at 1.
pub proof fn lemma_chased_pushes_count_generations(datas: Seq<Seq<u8>>)
    requires
        datas.len() <= u64::MAX,
    ensures
        forall|k: int| 0 <= k < datas.len() ==> {
            let pre = chain_state(#[trigger] datas.take(k));
            &&& push_accepted(pre, chased_version(pre))
            &&& next_generation(pre) == k + 1
            &&& chain_state(datas.take(k + 1)) == Some(BackupStateView {
                generation: (k + 1) as u64,
                data: datas[k],
            })
        },
{
    assert forall|k: int| 0 <= k < datas.len() implies {
        let pre = chain_state(#[trigger] datas.take(k));
        &&& push_accepted(pre, chased_version(pre))
        &&& next_generation(pre) == k + 1
        &&& chain_state(datas.take(k + 1)) == Some(BackupStateView {
            generation: (k + 1) as u64,
            data: datas[k],
        })
    } by {
        let prefix = datas.take(k);
        let step = datas.take(k + 1);
        lemma_chain_state(prefix);
        assert(step.drop_last() =~= prefix);
        assert(step.last() == datas[k]);
        lemma_chain_state(step);
    }
}

/// Law: a push that is accepted — its expected version matching the slot —
/// leaves the slot holding exactly the pushed data under generation `v + 1`,
/// or 1 when no version was supplied; `pull`'s contract then returns that
/// state verbatim, so a pull immediately after a successful push observes
/// precisely what was pushed.
pub proof fn lemma_push_then_pull(
    pre: Option<BackupStateView>,
    expected_version: Option<u64>,
    data: Seq<u8>,
)
    requires
        push_accepted(pre, expected_version),
        expected_version matches Some(v) ==> v < u64::MAX,
    ensures
        state_after_push(pre, expected_version, data) == Some(BackupStateView {
            generation: match expected_version {
                None => 1u64,
                Some(v) => (v + 1) as u64,
            },
            data,
        }),
{
}

/// Law: a first-write push against an occupied slot is never accepted — it
/// yields `Conflict` under `push`'s contract — and the slot's generation and
/// data stay exactly as they were: an existing backup is never silently
/// overwritten.
pub proof fn lemma_create_on_present_conflicts(pre: Option<BackupStateView>, data: Seq<u8>)
    requires
        pre is Some,
    ensures
        !push_accepted(pre, None),
        state_after_push(pre, None, data) == pre,
{
}

/// Law: a push whose expected version differs from the stored generation —
/// including any version stated against an absent slot — is never accepted,
/// and the slot's generation and data stay exactly as they were.
pub proof fn lemma_stale_version_conflicts(
    pre: Option<BackupStateView>,
    v: u64,
    data: Seq<u8>,
)
    requires
        pre matches Some(s) ==> s.generation != v,
    ensures
        !push_accepted(pre, Some(v)),
        state_after_push(pre, Some(v), data) == pre,
{
}

} // verus!
