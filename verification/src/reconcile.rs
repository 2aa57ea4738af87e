//! The reconciliation core: compares a source manifest against a
//! destination manifest and plans, per entry and in manifest order, whether
//! to skip it, create its directory, copy it plainly, or copy it under a
//! collision-avoiding name.

use vstd::prelude::*;
use vstd::string::StringExecFns;
use crate::entry::EntryType;
use crate::entry::FileEntry;
use crate::entry::EntryModel;
use crate::entry::entries_equal;
use crate::names::renamed_name;
use crate::names::rename_redundant_files;
use crate::names::str_eq;

verus! {

/// The mathematical value of a manifest: its entries' models, in walk order.
pub open spec fn manifest_view(m: Seq<FileEntry>) -> Seq<EntryModel> {
    m.map_values(|e: FileEntry| e@)
}

/// Whether `e` appears, structurally identical, somewhere in `m`.
pub open spec fn has_entry(m: Seq<EntryModel>, e: EntryModel) -> bool {
    exists|j: int| 0 <= j < m.len() && m[j] == e
}

/// The first index at or after `from` whose entry bears `name`.
pub open spec fn find_name_from(m: Seq<EntryModel>, name: Seq<char>, from: int) -> Option<int>
    decreases m.len() - from,
    when 0 <= from <= m.len()
{
    if from >= m.len() {
        None
    } else if m[from].name == name {
        Some(from)
    } else {
        find_name_from(m, name, from + 1)
    }
}

/// The first index in `m` whose entry bears `name`.
pub open spec fn find_name(m: Seq<EntryModel>, name: Seq<char>) -> Option<int> {
    find_name_from(m, name, 0)
}

/// What `find_name_from` returns: the least index of a matching entry at or
/// after `from`, or nothing when no entry from there on matches.
pub proof fn lemma_find_name_from(m: Seq<EntryModel>, name: Seq<char>, from: int)
    requires
        0 <= from <= m.len(),
    ensures
        match find_name_from(m, name, from) {
            Some(j) => from <= j < m.len() && m[j].name == name
                && forall|k: int| from <= k < j ==> m[k].name != name,
            None => forall|k: int| from <= k < m.len() ==> m[k].name != name,
        },
    decreases m.len() - from,
{
    if from < m.len() && m[from].name != name {
        lemma_find_name_from(m, name, from + 1);
    }
}

/// The first destination entry bearing `name`, if any.
pub fn find_by_name(meta: &Vec<FileEntry>, name: &str) -> (r: Option<usize>)
    ensures
        match r {
            Some(j) => j < meta@.len() && find_name(manifest_view(meta@), name@) == Some(j as int),
            None => find_name(manifest_view(meta@), name@) is None,
        },
{
    let ghost mv = manifest_view(meta@);
    let mut i: usize = 0;
    while i < meta.len()
        invariant
            i <= meta@.len(),
            mv == manifest_view(meta@),
            mv.len() == meta@.len(),
            find_name(mv, name@) == find_name_from(mv, name@, i as int),
        decreases meta@.len() - i,
    {
        proof {
            assert(mv[i as int] == meta@[i as int]@);
        }
        if str_eq(meta[i].name.as_str(), name) {
            return Some(i);
        }
        i += 1;
    }
    None
}

/// Index of the first destination entry whose name equals `file`, or `-1`
/// when no destination entry bears that name.
pub fn check_with_filename(file: &String, dest_meta: &Vec<FileEntry>) -> (r: i16)
    requires
        dest_meta@.len() <= i16::MAX as int,
    ensures
        match find_name(manifest_view(dest_meta@), file@) {
            Some(j) => r as int == j,
            None => r == -1,
        },
{
    match find_by_name(dest_meta, file.as_str()) {
        Some(j) => j as i16,
        None => -1,
    }
}

/// Whether some destination entry equals `e` in every recorded field.
pub fn manifest_contains(meta: &Vec<FileEntry>, e: &FileEntry) -> (r: bool)
    ensures
        r == has_entry(manifest_view(meta@), e@),
{
    let ghost mv = manifest_view(meta@);
    let mut i: usize = 0;
    while i < meta.len()
        invariant
            i <= meta@.len(),
            mv == manifest_view(meta@),
            mv.len() == meta@.len(),
            forall|k: int| 0 <= k < i ==> mv[k] != e@,
        decreases meta@.len() - i,
    {
        proof {
            assert(mv[i as int] == meta@[i as int]@);
        }
        if entries_equal(&meta[i], e) {
            return true;
        }
        i += 1;
    }
    false
}

/// What the reconciliation decides to do with one source entry.
pub enum Decision {
    /// Already present in the destination: record it, do nothing.
    Skip,
    /// A directory the destination lacks: create it.
    MakeDirectory,
    /// A file whose name the destination holds with a different
    /// modification time: copy it under the collision-avoiding name `to`.
    CopyRenamed { to: Seq<char> },
    /// A file the destination knows nothing about: copy it plainly.
    CopyDirect,
}

/// The decision for one source entry `e` against the destination manifest:
/// an exact structural match is skipped before anything else is considered;
/// otherwise a directory is created; otherwise the first same-named
/// destination entry settles, by its modification time, whether the file is
/// redundant or divergent; a file with no such namesake is copied directly.
pub open spec fn decision_of(e: EntryModel, dest: Seq<EntryModel>, tag: Seq<char>) -> Decision {
    if has_entry(dest, e) {
        Decision::Skip
    } else if e.e_type is Dir {
        Decision::MakeDirectory
    } else {
        match find_name(dest, e.name) {
            Some(j) => if dest[j].modified_at == e.modified_at {
                Decision::Skip
            } else {
                Decision::CopyRenamed { to: renamed_name(e.name, tag) }
            },
            None => Decision::CopyDirect,
        }
    }
}

/// One filesystem operation that reconciliation asks for, against paths
/// relative to the two roots.
#[derive(Debug, PartialEq, Eq)]
pub enum Action {
    CreateDir { path: String },
    CopyFile { from: String, to: String },
}

/// The mathematical value of an `Action`.
#[verifier::ext_equal]
pub enum ActionModel {
    CreateDir { path: Seq<char> },
    CopyFile { from: Seq<char>, to: Seq<char> },
}

impl View for Action {
    type V = ActionModel;

    open spec fn view(&self) -> ActionModel {
        match self {
            Action::CreateDir { path } => ActionModel::CreateDir { path: path@ },
            Action::CopyFile { from, to } => ActionModel::CopyFile { from: from@, to: to@ },
        }
    }
}

/// Everything one reconciliation pass decides: the filesystem operations in
/// source-manifest order, the entries found redundant, and the
/// collision-avoiding names produced.
#[derive(Debug, PartialEq, Eq)]
pub struct ReconcilePlan {
    pub actions: Vec<Action>,
    pub redundant: Vec<FileEntry>,
    pub renamed: Vec<String>,
}

/// The mathematical value of a `ReconcilePlan`.
#[verifier::ext_equal]
pub struct PlanModel {
    pub actions: Seq<ActionModel>,
    pub redundant: Seq<EntryModel>,
    pub renamed: Seq<Seq<char>>,
}

impl View for ReconcilePlan {
    type V = PlanModel;

    open spec fn view(&self) -> PlanModel {
        PlanModel {
            actions: self.actions@.map_values(|a: Action| a@),
            redundant: self.redundant@.map_values(|e: FileEntry| e@),
            renamed: self.renamed@.map_values(|s: String| s@),
        }
    }
}

/// The plan that asks for nothing and reports nothing.
pub open spec fn empty_plan() -> PlanModel {
    PlanModel { actions: Seq::empty(), redundant: Seq::empty(), renamed: Seq::empty() }
}

/// The plan `p` extended by what entry `e` contributes.
pub open spec fn plan_step(p: PlanModel, e: EntryModel, dest: Seq<EntryModel>, tag: Seq<char>) -> PlanModel {
    match decision_of(e, dest, tag) {
        Decision::Skip => PlanModel { redundant: p.redundant.push(e), ..p },
        Decision::MakeDirectory => PlanModel {
            actions: p.actions.push(ActionModel::CreateDir { path: e.name }),
            ..p
        },
        Decision::CopyRenamed { to } => PlanModel {
            actions: p.actions.push(ActionModel::CopyFile { from: e.name, to: to }),
            renamed: p.renamed.push(to),
            ..p
        },
        Decision::CopyDirect => PlanModel {
            actions: p.actions.push(ActionModel::CopyFile { from: e.name, to: e.name }),
            ..p
        },
    }
}

/// The full reconciliation plan for `src` against `dest` under `tag`: the
/// contributions of the source entries, in manifest order.
pub open spec fn plan_of(src: Seq<EntryModel>, dest: Seq<EntryModel>, tag: Seq<char>) -> PlanModel
    decreases src.len(),
{
    if src.len() == 0 {
        empty_plan()
    } else {
        plan_step(plan_of(src.drop_last(), dest, tag), src.last(), dest, tag)
    }
}

/// Computes the reconciliation plan for the source manifest against the
/// destination manifest. The result is a function of the two manifests and
/// the tag alone, so repeated calls plan the same operations in the same
/// order.
pub fn reconcile(src_meta: &Vec<FileEntry>, dest_meta: &Vec<FileEntry>, tag: &str) -> (plan: ReconcilePlan)
    ensures
        plan@ == plan_of(manifest_view(src_meta@), manifest_view(dest_meta@), tag@),
{
    let ghost sv = manifest_view(src_meta@);
    let ghost dv = manifest_view(dest_meta@);
    let mut actions: Vec<Action> = Vec::new();
    let mut redundant: Vec<FileEntry> = Vec::new();
    let mut renamed: Vec<String> = Vec::new();
    let mut i: usize = 0;
    while i < src_meta.len()
        invariant
            i <= src_meta@.len(),
            sv == manifest_view(src_meta@),
            dv == manifest_view(dest_meta@),
            sv.len() == src_meta@.len(),
            dv.len() == dest_meta@.len(),
            (PlanModel {
                actions: actions@.map_values(|a: Action| a@),
                redundant: redundant@.map_values(|e: FileEntry| e@),
                renamed: renamed@.map_values(|s: String| s@),
            }) == plan_of(sv.take(i as int), dv, tag@),
        decreases src_meta@.len() - i,
    {
        let ghost pre = PlanModel {
            actions: actions@.map_values(|a: Action| a@),
            redundant: redundant@.map_values(|e: FileEntry| e@),
            renamed: renamed@.map_values(|s: String| s@),
        };
        let e = &src_meta[i];
        proof {
            assert(sv[i as int] == e@);
            assert(sv.take(i as int + 1).drop_last() =~= sv.take(i as int));
            assert(sv.take(i as int + 1).last() == e@);
        }
        if manifest_contains(dest_meta, e) {
            redundant.push(e.duplicate());
            proof {
                assert(decision_of(e@, dv, tag@) == Decision::Skip);
                assert(redundant@.map_values(|x: FileEntry| x@) =~= pre.redundant.push(e@));
            }
        } else if e.e_type == EntryType::Dir {
            actions.push(Action::CreateDir { path: e.name.clone() });
            proof {
                assert(decision_of(e@, dv, tag@) == Decision::MakeDirectory);
                assert(actions@.map_values(|a: Action| a@)
                    =~= pre.actions.push(ActionModel::CreateDir { path: e@.name }));
            }
        } else {
            match find_by_name(dest_meta, e.name.as_str()) {
                Some(j) => {
                    proof {
                        assert(dv[j as int] == dest_meta@[j as int]@);
                    }
                    if dest_meta[j].modified_at == e.modified_at {
                        redundant.push(e.duplicate());
                        proof {
                            assert(decision_of(e@, dv, tag@) == Decision::Skip);
                            assert(redundant@.map_values(|x: FileEntry| x@) =~= pre.redundant.push(e@));
                        }
                    } else {
                        let to = rename_redundant_files(e.name.as_str(), tag);
                        let to_again = to.clone();
                        actions.push(Action::CopyFile { from: e.name.clone(), to: to_again });
                        renamed.push(to);
                        proof {
                            assert(decision_of(e@, dv, tag@)
                                == (Decision::CopyRenamed { to: renamed_name(e@.name, tag@) }));
                            assert(actions@.map_values(|a: Action| a@)
                                =~= pre.actions.push(ActionModel::CopyFile {
                                    from: e@.name,
                                    to: renamed_name(e@.name, tag@),
                                }));
                            assert(renamed@.map_values(|s: String| s@)
                                =~= pre.renamed.push(renamed_name(e@.name, tag@)));
                        }
                    }
                }
                None => {
                    actions.push(Action::CopyFile { from: e.name.clone(), to: e.name.clone() });
                    proof {
                        assert(decision_of(e@, dv, tag@) == Decision::CopyDirect);
                        assert(actions@.map_values(|a: Action| a@)
                            =~= pre.actions.push(ActionModel::CopyFile { from: e@.name, to: e@.name }));
                    }
                }
            }
        }
        proof {
            assert((PlanModel {
                actions: actions@.map_values(|a: Action| a@),
                redundant: redundant@.map_values(|e: FileEntry| e@),
                renamed: renamed@.map_values(|s: String| s@),
            }) =~= plan_step(pre, sv[i as int], dv, tag@));
        }
        i += 1;
    }
    proof {
        assert(sv.take(sv.len() as int) =~= sv);
    }
    ReconcilePlan { actions, redundant, renamed }
}

/// The error text with which an execution of the plan aborts when the given
/// operation fails: it names the offending path.
pub open spec fn failure_message(a: ActionModel) -> Seq<char> {
    match a {
        ActionModel::CreateDir { path } => "Couldn't create directory "@ + path,
        ActionModel::CopyFile { from, .. } => "Error copying file: "@ + from,
    }
}

/// The error text for a failed operation, naming the path it worked on.
pub fn action_failure_message(a: &Action) -> (r: String)
    ensures
        r@ == failure_message(a@),
{
    match a {
        Action::CreateDir { path } => {
            let mut r: String = "Couldn't create directory ".to_owned();
            r.append(path.as_str());
            r
        }
        Action::CopyFile { from, .. } => {
            let mut r: String = "Error copying file: ".to_owned();
            r.append(from.as_str());
            r
        }
    }
}

/// An entry present, structurally identical, in the destination is skipped:
/// no copy and no directory creation is planned for it, whatever other
/// same-named entries exist elsewhere in the destination.
pub proof fn lemma_exact_match_skips(e: EntryModel, dest: Seq<EntryModel>, tag: Seq<char>)
    requires
        has_entry(dest, e),
    ensures
        decision_of(e, dest, tag) == Decision::Skip,
{
}

/// An empty source manifest plans no operation and reports nothing.
pub proof fn lemma_empty_source(dest: Seq<EntryModel>, tag: Seq<char>)
    ensures
        plan_of(Seq::empty(), dest, tag) == empty_plan(),
{
}

/// Once every source entry appears structurally in the destination — as it
/// does after a completed pass whose copies reached the destination intact —
/// a further pass plans no operation at all: every entry is reported
/// redundant and nothing is renamed.
pub proof fn lemma_covered_source_plans_nothing(src: Seq<EntryModel>, dest: Seq<EntryModel>, tag: Seq<char>)
    requires
        forall|i: int| 0 <= i < src.len() ==> has_entry(dest, src[i]),
    ensures
        plan_of(src, dest, tag).actions == Seq::<ActionModel>::empty(),
        plan_of(src, dest, tag).redundant == src,
        plan_of(src, dest, tag).renamed == Seq::<Seq<char>>::empty(),
    decreases src.len(),
{
    if src.len() == 0 {
        assert(plan_of(src, dest, tag).redundant =~= src);
    } else {
        assert(forall|i: int| 0 <= i < src.drop_last().len() ==> src.drop_last()[i] == src[i]);
        lemma_covered_source_plans_nothing(src.drop_last(), dest, tag);
        assert(has_entry(dest, src.last()));
        assert(plan_of(src, dest, tag).redundant =~= src);
    }
}

/// Every source entry is accounted for exactly once: it either yields one
/// filesystem operation or one redundant record, never both and never
/// neither.
pub proof fn lemma_every_entry_accounted(src: Seq<EntryModel>, dest: Seq<EntryModel>, tag: Seq<char>)
    ensures
        plan_of(src, dest, tag).actions.len() + plan_of(src, dest, tag).redundant.len() == src.len(),
    decreases src.len(),
{
    if src.len() > 0 {
        lemma_every_entry_accounted(src.drop_last(), dest, tag);
    }
}

/// A file whose name the destination holds — first at index `j` — with a
/// different modification time, and which matches no destination entry
/// structurally, is copied under the collision-avoiding name for `tag`.
pub proof fn lemma_divergent_is_renamed(e: EntryModel, dest: Seq<EntryModel>, tag: Seq<char>, j: int)
    requires
        !has_entry(dest, e),
        e.e_type is File,
        find_name(dest, e.name) == Some(j),
        dest[j].modified_at != e.modified_at,
    ensures
        decision_of(e, dest, tag) == (Decision::CopyRenamed { to: renamed_name(e.name, tag) }),
{
    lemma_find_name_from(dest, e.name, 0);
}

/// A file whose name the destination holds — first at index `j` — with the
/// same modification time is accepted as already backed up and skipped.
pub proof fn lemma_same_time_skips(e: EntryModel, dest: Seq<EntryModel>, tag: Seq<char>, j: int)
    requires
        !has_entry(dest, e),
        e.e_type is File,
        find_name(dest, e.name) == Some(j),
        dest[j].modified_at == e.modified_at,
    ensures
        decision_of(e, dest, tag) == Decision::Skip,
{
    lemma_find_name_from(dest, e.name, 0);
}

} // verus!
