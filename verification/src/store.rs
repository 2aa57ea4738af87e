//! The manifest store's fixed names and its load policy. Reading and
//! writing the persisted file is filesystem work and runs outside the
//! library; what is verified here is where the manifest lives and what a
//! load yields when the file is missing or unparsable.

use vstd::prelude::*;
use crate::entry::FileEntry;

verus! {

/// The name of the reserved subdirectory under which a directory's
/// manifest is persisted.
pub open spec fn reserved_dir_name() -> Seq<char> {
    ".ebod"@
}

/// The reserved subdirectory's name.
pub fn reserved_dir() -> (r: &'static str)
    ensures
        r@ == reserved_dir_name(),
{
    ".ebod"
}

/// The name of the manifest file inside the reserved subdirectory.
pub open spec fn manifest_file_name() -> Seq<char> {
    "metadata.json"@
}

/// The manifest file's name.
pub fn manifest_file() -> (r: &'static str)
    ensures
        r@ == manifest_file_name(),
{
    "metadata.json"
}

/// What a load yields: the manifest that was read, or the empty manifest
/// when the persisted file was missing or unparsable — callers treat "no
/// manifest" exactly as "empty directory", never as an error.
pub fn manifest_or_empty(loaded: Result<Vec<FileEntry>, String>) -> (r: Vec<FileEntry>)
    ensures
        match loaded {
            Ok(m) => r@ == m@,
            Err(_) => r@ == Seq::<FileEntry>::empty(),
        },
{
    match loaded {
        Ok(m) => m,
        Err(_) => {
            let r: Vec<FileEntry> = Vec::new();
            proof {
                assert(r@ =~= Seq::<FileEntry>::empty());
            }
            r
        }
    }
}

} // verus!
