//! The manifest entry model: one record per filesystem object, as the
//! directory walk snapshots it.

use vstd::prelude::*;

verus! {

/// Whether a manifest entry describes a directory or a plain file.
#[derive(Debug, Clone, Copy, PartialEq, Eq, Structural)]
pub enum EntryType {
    Dir,
    File,
}

/// Snapshot of one filesystem object.
///
/// `name` is the path relative to the manifest's root, `modified_at` the
/// last-modification time in seconds since the epoch (0 when unavailable),
/// `length` the size in bytes, and `platform_id` an optional platform
/// identity (an inode number on POSIX systems); reconciliation never
/// consults `platform_id`, but structural equality does include it.
#[derive(Debug, PartialEq, Eq)]
pub struct FileEntry {
    pub name: String,
    pub modified_at: u64,
    pub length: u64,
    pub e_type: EntryType,
    pub platform_id: Option<u64>,
}

/// The mathematical value of a `FileEntry`: the same fields with the name
/// as a sequence of characters.
#[verifier::ext_equal]
pub struct EntryModel {
    pub name: Seq<char>,
    pub modified_at: u64,
    pub length: u64,
    pub e_type: EntryType,
    pub platform_id: Option<u64>,
}

impl View for FileEntry {
    type V = EntryModel;

    open spec fn view(&self) -> EntryModel {
        EntryModel {
            name: self.name@,
            modified_at: self.modified_at,
            length: self.length,
            e_type: self.e_type,
            platform_id: self.platform_id,
        }
    }
}

impl FileEntry {
    /// An entry equal to this one, field for field.
    pub fn duplicate(&self) -> (r: FileEntry)
        ensures
            r@ == self@,
    {
        let r = FileEntry {
            name: self.name.clone(),
            modified_at: self.modified_at,
            length: self.length,
            e_type: self.e_type,
            platform_id: self.platform_id,
        };
        proof {
            assert(r@ =~= self@);
        }
        r
    }
}

/// Structural equality of two entries: every recorded field matches.
pub fn entries_equal(a: &FileEntry, b: &FileEntry) -> (r: bool)
    ensures
        r == (a@ == b@),
{
    let ids_equal = match (a.platform_id, b.platform_id) {
        (Some(x), Some(y)) => x == y,
        (None, None) => true,
        _ => false,
    };
    let r = a.name == b.name && a.modified_at == b.modified_at && a.length == b.length
        && a.e_type == b.e_type && ids_equal;
    proof {
        if r {
            assert(a@ =~= b@);
        }
    }
    r
}

} // verus!
