use try_merge::ignore::{classify, Classification, IgnoreRules};
use try_merge::walk::{check_attempt, walk_outcomes, AttemptInfo};

fn strings(items: &[&str]) -> Vec<String> {
    items.iter().map(|s| s.to_string()).collect()
}

fn rules(patterns: &[&str]) -> IgnoreRules {
    IgnoreRules::new(&strings(patterns)).expect("patterns compile")
}

fn clean() -> AttemptInfo {
    AttemptInfo { conflict_paths: Vec::new(), restageable: true }
}

fn conflicted(paths: &[&str]) -> AttemptInfo {
    AttemptInfo { conflict_paths: strings(paths), restageable: true }
}

#[test]
fn three_clean_snapshots_all_merge() {
    let pending = strings(&["r1", "r2", "r3"]);
    let outcomes = vec![clean(), clean(), clean()];
    let report = walk_outcomes(&pending, &outcomes, &rules(&[]));
    assert_eq!(report.merged, strings(&["r1", "r2", "r3"]));
    assert_eq!(report.succeeded_count, 3);
    assert_eq!(report.skipped_count, 0);
    assert!(report.failing_revision.is_none());
    assert!(report.ignored_paths.is_empty());
}

#[test]
fn ignored_conflict_still_merges_and_is_reported() {
    let pending = strings(&["r1", "r2"]);
    let outcomes = vec![clean(), conflicted(&["Cargo.lock"])];
    let report = walk_outcomes(&pending, &outcomes, &rules(&["*.lock"]));
    assert_eq!(report.merged, strings(&["r1", "r2"]));
    assert_eq!(report.succeeded_count, 2);
    assert_eq!(report.skipped_count, 0);
    assert!(report.failing_revision.is_none());
    assert_eq!(report.ignored_paths, strings(&["Cargo.lock"]));
}

#[test]
fn blocking_conflict_stops_before_anything_is_merged() {
    let pending = strings(&["r1", "r2"]);
    let outcomes = vec![conflicted(&["src/main.rs"]), clean()];
    let report = walk_outcomes(&pending, &outcomes, &rules(&["*.lock"]));
    assert!(report.merged.is_empty());
    assert_eq!(report.succeeded_count, 0);
    assert_eq!(report.failing_revision, Some("r1".to_string()));
    assert_eq!(report.skipped_count, 2);
    assert!(report.ignored_paths.is_empty());
}

#[test]
fn walk_commits_only_the_prefix_before_the_block() {
    let pending = strings(&["r1", "r2", "r3", "r4"]);
    let outcomes = vec![
        clean(),
        conflicted(&["gen.lock"]),
        conflicted(&["src/lib.rs", "gen.lock"]),
        clean(),
    ];
    let report = walk_outcomes(&pending, &outcomes, &rules(&["*.lock"]));
    assert_eq!(report.merged, strings(&["r1", "r2"]));
    assert_eq!(report.succeeded_count, 2);
    assert_eq!(report.failing_revision, Some("r3".to_string()));
    assert_eq!(report.skipped_count, 2);
    assert_eq!(report.ignored_paths, strings(&["gen.lock"]));
}

#[test]
fn conflict_without_upstream_side_blocks_even_when_ignored() {
    let pending = strings(&["r1"]);
    let outcomes = vec![AttemptInfo {
        conflict_paths: strings(&["Cargo.lock"]),
        restageable: false,
    }];
    let report = walk_outcomes(&pending, &outcomes, &rules(&["*.lock"]));
    assert!(report.merged.is_empty());
    assert_eq!(report.failing_revision, Some("r1".to_string()));
    assert_eq!(report.skipped_count, 1);
}

#[test]
fn classify_allows_only_when_every_path_matches() {
    let r = rules(&["*.lock", "generated/*"]);
    assert!(matches!(
        classify(&strings(&["Cargo.lock", "generated/x.rs"]), &r),
        Classification::Allowed
    ));
    match classify(&strings(&["a.lock", "src/x.rs", "b.lock"]), &r) {
        Classification::Blocked(p) => assert_eq!(p, "src/x.rs"),
        Classification::Allowed => panic!("a non-matching path must block"),
    }
}

#[test]
fn classify_with_no_rules_blocks_any_conflict() {
    let r = rules(&[]);
    match classify(&strings(&["Cargo.lock"]), &r) {
        Classification::Blocked(p) => assert_eq!(p, "Cargo.lock"),
        Classification::Allowed => panic!("without rules every conflict must block"),
    }
    assert!(matches!(classify(&strings(&[]), &r), Classification::Allowed));
}

#[test]
fn check_attempt_matches_the_classifier_policy() {
    let r = rules(&["*.lock"]);
    assert!(check_attempt(&strings(&[]), true, &r));
    assert!(check_attempt(&strings(&["x.lock"]), true, &r));
    assert!(!check_attempt(&strings(&["x.lock"]), false, &r));
    assert!(!check_attempt(&strings(&["x.rs"]), true, &r));
}

#[test]
fn ignore_rules_match_their_patterns() {
    let r = rules(&["*.lock", "docs/**"]);
    assert!(r.matches("Cargo.lock"));
    assert!(r.matches("docs/a/b.md"));
    assert!(!r.matches("src/main.rs"));
}

#[test]
fn invalid_glob_pattern_is_rejected() {
    assert!(IgnoreRules::new(&strings(&["a{"])).is_err());
}
