//! The sync orchestrator's decisions: which step follows which, and under
//! which tags the two reconciliation passes rename divergent copies. The
//! filesystem work of each step runs outside the library; only its outcome
//! comes back here.

use vstd::prelude::*;
use crate::names::file_name_of;
use crate::names::is_transient_copy;
use crate::names::lemma_basename_without_separator;
use crate::names::lemma_renamed_is_transient;
use crate::names::rename_marker;
use crate::names::renamed_name;

verus! {

/// One step of a sync run between a source and a destination directory.
#[derive(Debug, Clone, Copy, PartialEq, Eq, Structural)]
pub enum SyncPhase {
    /// Reconcile the source directory into the destination.
    BackupForward,
    /// Rebuild and persist the destination's manifest, which the forward
    /// pass just changed.
    RefreshDestination,
    /// Reconcile the destination back into the source.
    BackupBackward,
    /// Rebuild the source's manifest in memory and delete the transient
    /// collision copies that the forward pass left there.
    CleanupSource,
    /// Nothing is left to do.
    Finished,
}

/// The phase that follows `phase` once its work reported `ok`. The steps
/// run in a fixed order whatever each one reports: a failure is logged by
/// the caller and aborts only the reconciliation call it happened in,
/// never the sync itself.
pub open spec fn spec_sync_advance(phase: SyncPhase, ok: bool) -> SyncPhase {
    match phase {
        SyncPhase::BackupForward => SyncPhase::RefreshDestination,
        SyncPhase::RefreshDestination => SyncPhase::BackupBackward,
        SyncPhase::BackupBackward => SyncPhase::CleanupSource,
        SyncPhase::CleanupSource => SyncPhase::Finished,
        SyncPhase::Finished => SyncPhase::Finished,
    }
}

/// Decides which sync step runs next, given the step just finished and
/// whether it succeeded.
pub fn sync_advance(phase: SyncPhase, ok: bool) -> (next: SyncPhase)
    ensures
        next == spec_sync_advance(phase, ok),
{
    match phase {
        SyncPhase::BackupForward => SyncPhase::RefreshDestination,
        SyncPhase::RefreshDestination => SyncPhase::BackupBackward,
        SyncPhase::BackupBackward => SyncPhase::CleanupSource,
        SyncPhase::CleanupSource => SyncPhase::Finished,
        SyncPhase::Finished => SyncPhase::Finished,
    }
}

/// The tag under which the forward pass renames divergent copies; the
/// cleanup pass matches the very same tag.
pub open spec fn forward_tag() -> Seq<char> {
    "src"@
}

/// The tag under which the backward pass renames divergent copies.
pub open spec fn backward_tag() -> Seq<char> {
    "dest"@
}

/// The forward pass's rename tag.
pub fn sync_forward_tag() -> (t: &'static str)
    ensures
        t@ == forward_tag(),
{
    "src"
}

/// The backward pass's rename tag.
pub fn sync_backward_tag() -> (t: &'static str)
    ensures
        t@ == backward_tag(),
{
    "dest"
}

/// Every collision name the forward pass produces is recognised by the
/// cleanup pass, which matches the same tag — the fixed fallback name
/// included: a sync's transient copies in the source directory are all
/// found again.
pub proof fn lemma_forward_names_are_cleaned(name: Seq<char>)
    ensures
        is_transient_copy(renamed_name(name, forward_tag()), forward_tag()),
{
    reveal_strlit("src");
    assert(forall|j: int| 0 <= j < forward_tag().len() ==> forward_tag()[j] != '/');
    if file_name_of(name) is Some {
        lemma_renamed_is_transient(name, forward_tag());
    } else {
        let r = renamed_name(name, forward_tag());
        let m = rename_marker(forward_tag());
        reveal_strlit("ebod-src-default");
        reveal_strlit("ebod-");
        reveal_strlit("-");
        assert(r == "ebod-src-default"@);
        assert(forall|j: int| 0 <= j < r.len() ==> r[j] != '/');
        lemma_basename_without_separator(r);
        assert(r.subrange(0, m.len() as int) =~= m);
    }
}

} // verus!
