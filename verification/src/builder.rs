//! The manifest builder's decisions. The directory walk itself is
//! filesystem work and runs outside the library; what is verified here is
//! which names the walk records and how a visited object becomes a
//! manifest entry.

use vstd::prelude::*;
use vstd::string::StrSliceExecFns;
use crate::entry::EntryType;
use crate::entry::FileEntry;
use crate::names::str_eq;
use crate::store::reserved_dir_name;

verus! {

/// Whether a name marks a hidden entry: it opens with the hidden-marker
/// dot.
pub open spec fn hidden_name(name: Seq<char>) -> bool {
    name.len() > 0 && name[0] == '.'
}

/// Whether the directory walk records an entry bearing `name`: the
/// reserved subdirectory is never recorded, so a stale manifest cannot
/// list its own storage, and a hidden name is recorded only when asked.
pub open spec fn spec_should_record(name: Seq<char>, include_hidden: bool) -> bool {
    name != reserved_dir_name() && (include_hidden || !hidden_name(name))
}

/// Decides whether the walk records the entry bearing `name`.
pub fn should_record(name: &str, include_hidden: bool) -> (r: bool)
    ensures
        r == spec_should_record(name@, include_hidden),
{
    if str_eq(name, ".ebod") {
        return false;
    }
    if include_hidden {
        return true;
    }
    !(name.unicode_len() > 0 && name.get_char(0) == '.')
}

/// Assembles the manifest record for one visited filesystem object.
pub fn make_entry(
    name: String,
    modified_at: u64,
    length: u64,
    is_dir: bool,
    platform_id: Option<u64>,
) -> (e: FileEntry)
    ensures
        e@.name == name@,
        e@.modified_at == modified_at,
        e@.length == length,
        e@.e_type == (if is_dir {
            EntryType::Dir
        } else {
            EntryType::File
        }),
        e@.platform_id == platform_id,
{
    FileEntry {
        name,
        modified_at,
        length,
        e_type: if is_dir {
            EntryType::Dir
        } else {
            EntryType::File
        },
        platform_id,
    }
}

} // verus!
