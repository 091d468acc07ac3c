use try_merge::engine::{cargo_lock_only, count_indicates_changes, default_branch_from_target, RefLookup};
use try_merge::errors::GitError;
use try_merge::strutil::{split_remote_branch, str_eq, str_starts_with, strip_prefix_str};

fn strings(items: &[&str]) -> Vec<String> {
    items.iter().map(|s| s.to_string()).collect()
}

#[test]
fn starts_with_and_equality() {
    assert!(str_starts_with("Merge commit abc", "Merge commit"));
    assert!(str_starts_with("abc", ""));
    assert!(!str_starts_with("Merge", "Merge commit"));
    assert!(!str_starts_with("merge commit", "Merge commit"));
    assert!(str_eq("a/b", "a/b"));
    assert!(!str_eq("a/b", "a/c"));
    assert!(!str_eq("a", "ab"));
}

#[test]
fn prefix_stripping() {
    assert_eq!(
        strip_prefix_str("refs/remotes/origin/main", "refs/remotes/"),
        Some("origin/main".to_string())
    );
    assert_eq!(strip_prefix_str("refs/heads/main", "refs/remotes/"), None);
    assert_eq!(strip_prefix_str("abc", ""), Some("abc".to_string()));
}

#[test]
fn remote_and_branch_split_at_the_last_separator() {
    let (remote, branch) = split_remote_branch("origin/main");
    assert_eq!(remote, Some("origin".to_string()));
    assert_eq!(branch, "main");

    let (remote, branch) = split_remote_branch("main");
    assert_eq!(remote, None);
    assert_eq!(branch, "main");

    let (remote, branch) = split_remote_branch("a/b/c");
    assert_eq!(remote, Some("a/b".to_string()));
    assert_eq!(branch, "c");
}

#[test]
fn default_branch_from_the_remote_head_target() {
    let got = default_branch_from_target(
        "origin",
        RefLookup::Symbolic("refs/remotes/origin/main".to_string()),
    );
    assert_eq!(got.unwrap(), "origin/main");
}

#[test]
fn default_branch_falls_back_to_master_when_the_reference_is_missing() {
    let got = default_branch_from_target("origin", RefLookup::Missing);
    assert_eq!(got.unwrap(), "origin/master");
}

#[test]
fn default_branch_rejects_a_direct_reference() {
    match default_branch_from_target("origin", RefLookup::Direct) {
        Err(GitError::HeadIsNotSymbolic) => {},
        _ => panic!("a direct HEAD reference must be rejected"),
    }
}

#[test]
fn default_branch_rejects_a_target_outside_the_remotes_namespace() {
    match default_branch_from_target(
        "origin",
        RefLookup::Symbolic("refs/heads/main".to_string()),
    ) {
        Err(GitError::InvalidTarget) => {},
        _ => panic!("a target outside refs/remotes/ must be rejected"),
    }
}

#[test]
fn lock_file_only_check() {
    assert_eq!(cargo_lock_only(&strings(&[])), Some(false));
    assert_eq!(cargo_lock_only(&strings(&["Cargo.lock"])), Some(true));
    assert_eq!(cargo_lock_only(&strings(&["Cargo.lock", "Cargo.lock"])), Some(true));
    assert_eq!(cargo_lock_only(&strings(&["Cargo.lock", "src/main.rs"])), None);
    assert_eq!(cargo_lock_only(&strings(&["src/main.rs"])), None);
}

#[test]
fn any_nonzero_changed_file_count_reports_changes() {
    assert!(!count_indicates_changes(0));
    assert!(count_indicates_changes(1));
    assert!(count_indicates_changes(usize::MAX));
}
