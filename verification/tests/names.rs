use ebod::EntryType;
use ebod::LogType;
use ebod::basename;
use ebod::entries_equal;
use ebod::file_name;
use ebod::is_transient_copy_name;
use ebod::make_entry;
use ebod::rename_redundant_files;
use ebod::should_record;
use ebod::str_eq;
use ebod::str_starts_with;

#[test]
fn basename_takes_the_last_component() {
    assert_eq!(basename("a/b/c.txt"), "c.txt");
    assert_eq!(basename("c.txt"), "c.txt");
    assert_eq!(basename(""), "");
    assert_eq!(basename("a/"), "");
    assert_eq!(basename("/c.txt"), "c.txt");
}

#[test]
fn file_name_resolves_like_a_path() {
    assert_eq!(file_name("a/b/c.txt"), Some("c.txt"));
    assert_eq!(file_name("c.txt"), Some("c.txt"));
    assert_eq!(file_name("a/"), Some("a"));
    assert_eq!(file_name("a//"), Some("a"));
    assert_eq!(file_name("tmp/foo.txt/."), Some("foo.txt"));
    assert_eq!(file_name("./a"), Some("a"));
    assert_eq!(file_name(".hidden"), Some(".hidden"));
    assert_eq!(file_name(""), None);
    assert_eq!(file_name("/"), None);
    assert_eq!(file_name("."), None);
    assert_eq!(file_name(".."), None);
    assert_eq!(file_name("foo.txt/.."), None);
}

#[test]
fn rename_prefixes_tag_and_tool() {
    assert_eq!(rename_redundant_files("notes.txt", "src"), "ebod-src-notes.txt");
    assert_eq!(rename_redundant_files("a/b/notes.txt", "src"), "ebod-src-notes.txt");
    assert_eq!(rename_redundant_files("notes.txt", "dest"), "ebod-dest-notes.txt");
    assert_eq!(rename_redundant_files("a/", "dest"), "ebod-dest-a");
}

#[test]
fn rename_falls_back_on_unresolvable_names() {
    // The fallback name is fixed: it ignores the tag.
    assert_eq!(rename_redundant_files("..", "dest"), "ebod-src-default");
    assert_eq!(rename_redundant_files("", "src"), "ebod-src-default");
    assert_eq!(rename_redundant_files("foo.txt/..", "src"), "ebod-src-default");
}

#[test]
fn transient_marker_matches_renamed_names() {
    assert!(is_transient_copy_name("ebod-src-x.txt", "src"));
    assert!(is_transient_copy_name("sub/ebod-src-x.txt", "src"));
    assert!(!is_transient_copy_name("x.txt", "src"));
    assert!(!is_transient_copy_name("ebod-dest-x.txt", "src"));
    assert!(is_transient_copy_name(rename_redundant_files("a/b.txt", "src").as_str(), "src"));
}

#[test]
fn string_helpers_compare_text() {
    assert!(str_eq("abc", "abc"));
    assert!(!str_eq("abc", "abd"));
    assert!(!str_eq("abc", "ab"));
    assert!(str_starts_with("abcdef", "abc"));
    assert!(str_starts_with("abc", ""));
    assert!(!str_starts_with("ab", "abc"));
    assert!(!str_starts_with("abc", "abd"));
}

#[test]
fn walk_skips_reserved_and_hidden_names() {
    assert!(!should_record(".ebod", false));
    assert!(!should_record(".ebod", true));
    assert!(!should_record(".git", false));
    assert!(should_record(".git", true));
    assert!(should_record("x.txt", false));
    assert!(should_record("x.txt", true));
}

#[test]
fn entries_are_compared_structurally() {
    let a = make_entry("x.txt".to_string(), 10, 5, false, Some(1));
    let same = make_entry("x.txt".to_string(), 10, 5, false, Some(1));
    let other_id = make_entry("x.txt".to_string(), 10, 5, false, Some(2));
    let other_kind = make_entry("x.txt".to_string(), 10, 5, true, Some(1));
    assert!(entries_equal(&a, &same));
    assert!(!entries_equal(&a, &other_id));
    assert!(!entries_equal(&a, &other_kind));
    assert_eq!(a.e_type, EntryType::File);
    assert_eq!(other_kind.e_type, EntryType::Dir);
}

#[test]
fn log_labels_are_fixed() {
    assert_eq!(LogType::Info.label(), " INFO ");
    assert_eq!(LogType::Success.label(), "  OK  ");
    assert_eq!(LogType::Failure.label(), " ERR! ");
}
