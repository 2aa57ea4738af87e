//! Text handling for relative paths: file-name components, the
//! collision-rename convention, and the marker test that the cleanup pass
//! applies to renamed copies.

use vstd::prelude::*;
use vstd::string::StrSliceExecFns;
use vstd::string::StringExecFns;

verus! {

/// The file-name component of a relative path: the characters after the
/// last `'/'` separator, or the whole path when it holds none.
pub open spec fn basename_of(s: Seq<char>) -> Seq<char>
    decreases s.len(),
{
    if s.len() == 0 {
        s
    } else if s.last() == '/' {
        Seq::empty()
    } else {
        basename_of(s.drop_last()).push(s.last())
    }
}

/// A file-name component never holds a separator.
pub proof fn lemma_basename_no_separator(s: Seq<char>)
    ensures
        forall|j: int| 0 <= j < basename_of(s).len() ==> basename_of(s)[j] != '/',
    decreases s.len(),
{
    if s.len() == 0 {
    } else if s.last() == '/' {
    } else {
        lemma_basename_no_separator(s.drop_last());
        assert forall|j: int| 0 <= j < basename_of(s).len() implies basename_of(s)[j] != '/' by {
            if j < basename_of(s).len() - 1 {
                assert(basename_of(s)[j] == basename_of(s.drop_last())[j]);
            } else {
                assert(basename_of(s)[j] == s.last());
            }
        }
    }
}

/// A path without separators is its own file-name component.
pub proof fn lemma_basename_without_separator(s: Seq<char>)
    requires
        forall|j: int| 0 <= j < s.len() ==> s[j] != '/',
    ensures
        basename_of(s) == s,
    decreases s.len(),
{
    if s.len() == 0 {
        assert(basename_of(s) =~= s);
    } else {
        lemma_basename_without_separator(s.drop_last());
        assert(basename_of(s) =~= s);
    }
}

/// After the last separator, the file-name component is exactly the suffix.
pub proof fn lemma_basename_after_separator(s: Seq<char>, i: int)
    requires
        0 <= i < s.len(),
        s[i] == '/',
        forall|j: int| i < j < s.len() ==> s[j] != '/',
    ensures
        basename_of(s) == s.subrange(i + 1, s.len() as int),
    decreases s.len(),
{
    if i == s.len() - 1 {
        assert(basename_of(s) =~= s.subrange(i + 1, s.len() as int));
    } else {
        lemma_basename_after_separator(s.drop_last(), i);
        assert(basename_of(s) =~= s.subrange(i + 1, s.len() as int));
    }
}

/// The file-name component of a relative path.
pub fn basename(s: &str) -> (r: &str)
    ensures
        r@ == basename_of(s@),
{
    let len: usize = s.unicode_len();
    let mut start: usize = 0;
    let mut i: usize = 0;
    while i < len
        invariant
            len == s@.len(),
            start <= i <= len,
            start > 0 ==> s@[start - 1] == '/',
            forall|j: int| start <= j < i ==> s@[j] != '/',
        decreases len - i,
    {
        if s.get_char(i) == '/' {
            start = i + 1;
        }
        i += 1;
    }
    let r = s.substring_char(start, len);
    proof {
        if start == 0 {
            lemma_basename_without_separator(s@);
            assert(s@.subrange(0, len as int) =~= s@);
        } else {
            lemma_basename_after_separator(s@, start - 1);
        }
    }
    r
}

/// Whether `p` is a prefix of `s`.
pub open spec fn is_prefix_of(p: Seq<char>, s: Seq<char>) -> bool {
    p.len() <= s.len() && s.subrange(0, p.len() as int) == p
}

/// Whether the text of `s` starts with the text of `p`.
pub fn str_starts_with(s: &str, p: &str) -> (r: bool)
    ensures
        r == is_prefix_of(p@, s@),
{
    let slen: usize = s.unicode_len();
    let plen: usize = p.unicode_len();
    if plen > slen {
        return false;
    }
    let mut i: usize = 0;
    while i < plen
        invariant
            i <= plen <= slen,
            plen == p@.len(),
            slen == s@.len(),
            forall|j: int| 0 <= j < i ==> s@[j] == p@[j],
        decreases plen - i,
    {
        if s.get_char(i) != p.get_char(i) {
            proof {
                assert(s@.subrange(0, p@.len() as int)[i as int] == s@[i as int]);
            }
            return false;
        }
        i += 1;
    }
    proof {
        assert(s@.subrange(0, p@.len() as int) =~= p@);
    }
    true
}

/// Whether the texts of `a` and `b` are equal, character for character.
pub fn str_eq(a: &str, b: &str) -> (r: bool)
    ensures
        r == (a@ == b@),
{
    if a.unicode_len() != b.unicode_len() {
        return false;
    }
    let r = str_starts_with(a, b);
    proof {
        assert(a@.subrange(0, b@.len() as int) =~= a@);
    }
    r
}

/// The file-name component a path resolves to, if any: trailing separators
/// and trailing current-directory segments are dropped, a path that ends in
/// a parent-directory segment — or runs out of segments — resolves to
/// nothing, and otherwise the last segment is the file name.
pub open spec fn file_name_of(s: Seq<char>) -> Option<Seq<char>>
    decreases s.len(),
{
    let base = basename_of(s);
    if s.len() == 0 {
        None
    } else if base == Seq::<char>::empty() {
        file_name_of(s.take(s.len() - 1))
    } else if base == "."@ {
        if s.len() == 1 {
            None
        } else {
            file_name_of(s.take(s.len() - 2))
        }
    } else if base == ".."@ {
        None
    } else {
        Some(base)
    }
}

/// A resolved file-name component never holds a separator.
pub proof fn lemma_file_name_no_separator(s: Seq<char>)
    ensures
        match file_name_of(s) {
            Some(b) => forall|j: int| 0 <= j < b.len() ==> b[j] != '/',
            None => true,
        },
    decreases s.len(),
{
    lemma_basename_no_separator(s);
    if s.len() == 0 {
    } else if basename_of(s) == Seq::<char>::empty() {
        lemma_file_name_no_separator(s.take(s.len() - 1));
    } else if basename_of(s) == "."@ {
        if s.len() != 1 {
            lemma_file_name_no_separator(s.take(s.len() - 2));
        }
    }
}

/// The file-name component of `s`, if one resolves.
pub fn file_name(s: &str) -> (r: Option<&str>)
    ensures
        match r {
            Some(b) => file_name_of(s@) == Some(b@),
            None => file_name_of(s@) is None,
        },
    decreases s@.len(),
{
    let slen: usize = s.unicode_len();
    if slen == 0 {
        return None;
    }
    let base = basename(s);
    let blen: usize = base.unicode_len();
    if blen == 0 {
        return file_name(s.substring_char(0, slen - 1));
    }
    if str_eq(base, ".") {
        if slen == 1 {
            return None;
        }
        return file_name(s.substring_char(0, slen - 2));
    }
    if str_eq(base, "..") {
        return None;
    }
    Some(base)
}

/// The marker that opens every collision-renamed copy produced under `tag`:
/// the tool's fixed prefix, the tag, and a closing dash.
pub open spec fn rename_marker(tag: Seq<char>) -> Seq<char> {
    "ebod-"@ + tag + "-"@
}

/// The fixed name under which a divergent entry is copied when its path
/// resolves to no file-name component.
pub open spec fn fallback_copy_name() -> Seq<char> {
    "ebod-src-default"@
}

/// The collision-avoiding name for a divergent entry: the marker for `tag`
/// followed by the entry's file-name component, or the fixed fallback name
/// when the path resolves to none.
pub open spec fn renamed_name(name: Seq<char>, tag: Seq<char>) -> Seq<char> {
    match file_name_of(name) {
        Some(base) => rename_marker(tag) + base,
        None => fallback_copy_name(),
    }
}

/// Builds the collision-avoiding name under which a divergent source entry
/// is copied, so that the destination's own file is never overwritten.
pub fn rename_redundant_files(file: &str, dir: &str) -> (r: String)
    ensures
        r@ == renamed_name(file@, dir@),
{
    match file_name(file) {
        Some(base) => {
            let mut r: String = "ebod-".to_owned();
            r.append(dir);
            r.append("-");
            r.append(base);
            proof {
                assert(r@ =~= renamed_name(file@, dir@));
            }
            r
        }
        None => "ebod-src-default".to_owned(),
    }
}

/// Whether a relative path's file name carries the rename marker for `tag`,
/// which is how the cleanup pass recognises transient collision copies.
pub open spec fn is_transient_copy(name: Seq<char>, tag: Seq<char>) -> bool {
    is_prefix_of(rename_marker(tag), basename_of(name))
}

/// Whether the file name of `name` carries the rename marker for `tag`.
pub fn is_transient_copy_name(name: &str, tag: &str) -> (r: bool)
    ensures
        r == is_transient_copy(name@, tag@),
{
    let base = basename(name);
    let mut marker: String = "ebod-".to_owned();
    marker.append(tag);
    marker.append("-");
    proof {
        assert(marker@ =~= rename_marker(tag@));
    }
    str_starts_with(base, marker.as_str())
}

/// Every name the rename convention builds from a resolvable file-name
/// component under `tag` is recognised by the cleanup marker test for that
/// same tag, provided the tag itself holds no path separator.
pub proof fn lemma_renamed_is_transient(name: Seq<char>, tag: Seq<char>)
    requires
        forall|j: int| 0 <= j < tag.len() ==> tag[j] != '/',
        file_name_of(name) is Some,
    ensures
        is_transient_copy(renamed_name(name, tag), tag),
{
    lemma_file_name_no_separator(name);
    match file_name_of(name) {
        Some(base) => {
            let m = rename_marker(tag);
            let r = renamed_name(name, tag);
            reveal_strlit("ebod-");
            reveal_strlit("-");
            assert forall|j: int| 0 <= j < r.len() implies r[j] != '/' by {
                if j < "ebod-"@.len() {
                    assert(r[j] == "ebod-"@[j]);
                } else if j < "ebod-"@.len() + tag.len() {
                    assert(r[j] == tag[j - "ebod-"@.len()]);
                } else if j < m.len() {
                    assert(r[j] == "-"@[j - "ebod-"@.len() - tag.len()]);
                } else {
                    assert(r[j] == base[j - m.len()]);
                }
            }
            lemma_basename_without_separator(r);
            assert(r.subrange(0, m.len() as int) =~= m);
        }
        None => {}
    }
}

} // verus!
