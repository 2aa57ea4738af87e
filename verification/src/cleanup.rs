//! Selection of the transient collision copies that the cleanup pass at the
//! end of a sync deletes from the source directory.

use vstd::prelude::*;
use crate::entry::FileEntry;
use crate::entry::EntryModel;
use crate::names::file_name_of;
use crate::names::is_transient_copy;
use crate::names::is_transient_copy_name;
use crate::names::lemma_renamed_is_transient;
use crate::names::renamed_name;
use crate::reconcile::Decision;
use crate::reconcile::decision_of;
use crate::reconcile::manifest_view;
use crate::reconcile::plan_of;

verus! {

/// The relative paths, in manifest order, of the entries whose file name
/// carries the rename marker for `tag`.
pub open spec fn spec_cleanup_targets(m: Seq<EntryModel>, tag: Seq<char>) -> Seq<Seq<char>>
    decreases m.len(),
{
    if m.len() == 0 {
        Seq::empty()
    } else {
        let rest = spec_cleanup_targets(m.drop_last(), tag);
        if is_transient_copy(m.last().name, tag) {
            rest.push(m.last().name)
        } else {
            rest
        }
    }
}

/// Selects from a manifest the relative paths of the transient collision
/// copies for `tag`: exactly the entries the cleanup pass should delete,
/// in manifest order.
pub fn cleanup_targets(meta: &Vec<FileEntry>, tag: &str) -> (r: Vec<String>)
    ensures
        r@.map_values(|s: String| s@) == spec_cleanup_targets(manifest_view(meta@), tag@),
{
    let ghost mv = manifest_view(meta@);
    let mut out: Vec<String> = Vec::new();
    let mut i: usize = 0;
    while i < meta.len()
        invariant
            i <= meta@.len(),
            mv == manifest_view(meta@),
            mv.len() == meta@.len(),
            out@.map_values(|s: String| s@) == spec_cleanup_targets(mv.take(i as int), tag@),
        decreases meta@.len() - i,
    {
        let ghost pre = out@.map_values(|s: String| s@);
        proof {
            assert(mv[i as int] == meta@[i as int]@);
            assert(mv.take(i as int + 1).drop_last() =~= mv.take(i as int));
            assert(mv.take(i as int + 1).last() == mv[i as int]);
        }
        if is_transient_copy_name(meta[i].name.as_str(), tag) {
            out.push(meta[i].name.clone());
            proof {
                assert(out@.map_values(|s: String| s@) =~= pre.push(mv[i as int].name));
            }
        }
        i += 1;
    }
    proof {
        assert(mv.take(mv.len() as int) =~= mv);
    }
    out
}

/// Every collision name a reconciliation pass under `tag` plans is
/// recognised by the cleanup marker test for that same tag, provided the
/// tag holds no path separator and every source path resolves a file-name
/// component (as every path a directory walk records does): once the
/// renamed copies land in a directory, the cleanup pass finds each of
/// them again.
pub proof fn lemma_plan_renames_are_marked(src: Seq<EntryModel>, dest: Seq<EntryModel>, tag: Seq<char>)
    requires
        forall|j: int| 0 <= j < tag.len() ==> tag[j] != '/',
        forall|i: int| 0 <= i < src.len() ==> (#[trigger] file_name_of(src[i].name)) is Some,
    ensures
        forall|k: int| 0 <= k < plan_of(src, dest, tag).renamed.len()
            ==> is_transient_copy(#[trigger] plan_of(src, dest, tag).renamed[k], tag),
    decreases src.len(),
{
    if src.len() > 0 {
        assert(forall|i: int| 0 <= i < src.drop_last().len()
            ==> src.drop_last()[i] == src[i]);
        assert(src.last() == src[src.len() - 1]);
        lemma_plan_renames_are_marked(src.drop_last(), dest, tag);
        let p = plan_of(src, dest, tag);
        let rest = plan_of(src.drop_last(), dest, tag);
        match decision_of(src.last(), dest, tag) {
            Decision::CopyRenamed { .. } => {
                lemma_renamed_is_transient(src.last().name, tag);
                assert(p.renamed == rest.renamed.push(renamed_name(src.last().name, tag)));
                assert forall|k: int| 0 <= k < p.renamed.len()
                    implies is_transient_copy(p.renamed[k], tag) by {
                    if k < rest.renamed.len() {
                        assert(p.renamed[k] == rest.renamed[k]);
                    } else {
                        assert(p.renamed[k] == renamed_name(src.last().name, tag));
                    }
                }
            }
            _ => {
                assert(p.renamed == rest.renamed);
            }
        }
    }
}

} // verus!
