use ebod::Action;
use ebod::FileEntry;
use ebod::action_failure_message;
use ebod::check_with_filename;
use ebod::make_entry;
use ebod::reconcile;

fn file(name: &str, modified_at: u64, length: u64) -> FileEntry {
    make_entry(name.to_string(), modified_at, length, false, None)
}

fn file_with_id(name: &str, modified_at: u64, length: u64, id: u64) -> FileEntry {
    make_entry(name.to_string(), modified_at, length, false, Some(id))
}

fn dir(name: &str, modified_at: u64) -> FileEntry {
    make_entry(name.to_string(), modified_at, 0, true, None)
}

#[test]
fn empty_source_plans_nothing() {
    let src: Vec<FileEntry> = vec![];
    let dest = vec![file("a.txt", 5, 10), dir("sub", 1)];
    let plan = reconcile(&src, &dest, "src");
    assert!(plan.actions.is_empty());
    assert!(plan.redundant.is_empty());
    assert!(plan.renamed.is_empty());
}

#[test]
fn reconcile_is_deterministic() {
    let src = vec![dir("sub", 1), file("a.txt", 5, 10), file("b.txt", 7, 3)];
    let dest = vec![file("b.txt", 9, 3)];
    let first = reconcile(&src, &dest, "src");
    let second = reconcile(&src, &dest, "src");
    assert_eq!(first, second);
}

#[test]
fn exact_match_takes_precedence() {
    let e = file_with_id("notes.txt", 100, 5, 42);
    let divergent_namesake = file_with_id("notes.txt", 200, 7, 43);
    let src = vec![e.duplicate()];
    let dest = vec![divergent_namesake, e.duplicate()];
    let plan = reconcile(&src, &dest, "src");
    assert!(plan.actions.is_empty());
    assert_eq!(plan.redundant, vec![e]);
    assert!(plan.renamed.is_empty());
}

#[test]
fn divergent_file_is_renamed() {
    let src = vec![file_with_id("notes.txt", 100, 5, 1)];
    let dest = vec![file_with_id("notes.txt", 200, 7, 2)];
    let plan = reconcile(&src, &dest, "src");
    assert_eq!(
        plan.actions,
        vec![Action::CopyFile { from: "notes.txt".to_string(), to: "ebod-src-notes.txt".to_string() }]
    );
    assert_eq!(plan.renamed, vec!["ebod-src-notes.txt".to_string()]);
    assert!(plan.redundant.is_empty());
    for action in &plan.actions {
        if let Action::CopyFile { to, .. } = action {
            assert_ne!(to, "notes.txt");
        }
        if let Action::CreateDir { path } = action {
            assert_ne!(path, "notes.txt");
        }
    }
}

#[test]
fn same_timestamp_is_redundant() {
    let e = file_with_id("report.txt", 50, 10, 7);
    let namesake = file_with_id("report.txt", 50, 999, 8);
    let src = vec![e.duplicate()];
    let dest = vec![namesake];
    let plan = reconcile(&src, &dest, "src");
    assert!(plan.actions.is_empty());
    assert_eq!(plan.redundant, vec![e]);
    assert!(plan.renamed.is_empty());
}

#[test]
fn new_directory_is_created() {
    let src = vec![dir("photos", 3)];
    let dest = vec![file("a.txt", 5, 10)];
    let plan = reconcile(&src, &dest, "src");
    assert_eq!(plan.actions, vec![Action::CreateDir { path: "photos".to_string() }]);
    assert!(plan.redundant.is_empty());
    assert!(plan.renamed.is_empty());
}

#[test]
fn directory_is_never_renamed() {
    // A directory that is no exact match is created even when the
    // destination holds a namesake with another modification time.
    let src = vec![dir("photos", 3)];
    let dest = vec![dir("photos", 9)];
    let plan = reconcile(&src, &dest, "src");
    assert_eq!(plan.actions, vec![Action::CreateDir { path: "photos".to_string() }]);
    assert!(plan.renamed.is_empty());
}

#[test]
fn absent_file_is_copied_directly() {
    let src = vec![file("x.txt", 10, 4)];
    let dest = vec![file("y.txt", 20, 4)];
    let plan = reconcile(&src, &dest, "src");
    assert_eq!(
        plan.actions,
        vec![Action::CopyFile { from: "x.txt".to_string(), to: "x.txt".to_string() }]
    );
    assert!(plan.redundant.is_empty());
    assert!(plan.renamed.is_empty());
}

#[test]
fn first_namesake_settles_the_decision() {
    // Two destination entries share the source entry's name; the first
    // one's timestamp agrees, so the entry is redundant.
    let e = file("log.txt", 30, 1);
    let first_namesake = file_with_id("log.txt", 30, 2, 5);
    let second_namesake = file_with_id("log.txt", 99, 3, 6);
    let src = vec![e.duplicate()];
    let dest = vec![first_namesake, second_namesake];
    let plan = reconcile(&src, &dest, "src");
    assert!(plan.actions.is_empty());
    assert_eq!(plan.redundant, vec![e]);
}

#[test]
fn actions_follow_manifest_order() {
    let src = vec![dir("sub", 1), file("a.txt", 5, 10), file("b.txt", 7, 3)];
    let dest: Vec<FileEntry> = vec![];
    let plan = reconcile(&src, &dest, "src");
    assert_eq!(
        plan.actions,
        vec![
            Action::CreateDir { path: "sub".to_string() },
            Action::CopyFile { from: "a.txt".to_string(), to: "a.txt".to_string() },
            Action::CopyFile { from: "b.txt".to_string(), to: "b.txt".to_string() },
        ]
    );
}

#[test]
fn tag_appears_in_renamed_copy() {
    let src = vec![file("notes.txt", 100, 5)];
    let dest = vec![file("notes.txt", 200, 5)];
    let plan = reconcile(&src, &dest, "dest");
    assert_eq!(plan.renamed, vec!["ebod-dest-notes.txt".to_string()]);
}

#[test]
fn check_with_filename_finds_first_index() {
    let dest = vec![file("a.txt", 1, 1), file("b.txt", 2, 2), file_with_id("b.txt", 3, 3, 9)];
    assert_eq!(check_with_filename(&"a.txt".to_string(), &dest), 0);
    assert_eq!(check_with_filename(&"b.txt".to_string(), &dest), 1);
    assert_eq!(check_with_filename(&"c.txt".to_string(), &dest), -1);
}

#[test]
fn failure_messages_name_the_path() {
    let mkdir = Action::CreateDir { path: "backups".to_string() };
    assert_eq!(action_failure_message(&mkdir), "Couldn't create directory backups");
    let copy = Action::CopyFile { from: "a/b.txt".to_string(), to: "ebod-src-b.txt".to_string() };
    assert_eq!(action_failure_message(&copy), "Error copying file: a/b.txt");
}
