use ebod::FileEntry;
use ebod::make_entry;
use ebod::manifest_file;
use ebod::manifest_or_empty;
use ebod::reserved_dir;

#[test]
fn load_policy_returns_the_manifest_read() {
    let expected = vec![make_entry("x.txt".to_string(), 10, 4, false, None)];
    let loaded = manifest_or_empty(Ok(vec![make_entry("x.txt".to_string(), 10, 4, false, None)]));
    assert_eq!(loaded, expected);
}

#[test]
fn load_policy_treats_failure_as_empty() {
    let missing: Vec<FileEntry> = manifest_or_empty(Err("Error in reading from file".to_string()));
    assert!(missing.is_empty());
    let corrupt: Vec<FileEntry> = manifest_or_empty(Err("Error in parsing JSON data".to_string()));
    assert!(corrupt.is_empty());
}

#[test]
fn store_names_are_fixed() {
    assert_eq!(reserved_dir(), ".ebod");
    assert_eq!(manifest_file(), "metadata.json");
}
