use try_merge::engine::{run_walk, squash_all_merge_commits, Repo};
use try_merge::ignore::IgnoreRules;
use try_merge::messages::{merge_message, squash_message};

fn unique_dir(tag: &str) -> String {
    let n = std::time::SystemTime::now()
        .duration_since(std::time::UNIX_EPOCH)
        .unwrap()
        .as_nanos();
    format!("/tmp/try_merge_it_{}_{}", tag, n)
}

fn setup_repo(dir: &str) -> git2::Repository {
    let repo = git2::Repository::init(dir).unwrap();
    {
        let mut cfg = repo.config().unwrap();
        cfg.set_str("user.name", "tester").unwrap();
        cfg.set_str("user.email", "tester@example.com").unwrap();
    }
    repo
}

fn commit_tree(
    repo: &git2::Repository,
    files: &[(&str, &str)],
    parents: &[git2::Oid],
) -> git2::Oid {
    let mut tb = repo.treebuilder(None).unwrap();
    for (name, content) in files {
        let blob = repo.blob(content.as_bytes()).unwrap();
        tb.insert(*name, blob, 0o100644).unwrap();
    }
    let tree = repo.find_tree(tb.write().unwrap()).unwrap();
    let sig = git2::Signature::now("tester", "tester@example.com").unwrap();
    let parent_commits: Vec<git2::Commit> =
        parents.iter().map(|p| repo.find_commit(*p).unwrap()).collect();
    let parent_refs: Vec<&git2::Commit> = parent_commits.iter().collect();
    repo.commit(None, &sig, &sig, "snapshot", &tree, &parent_refs).unwrap()
}

fn set_head(repo: &git2::Repository, oid: git2::Oid) {
    repo.reference("refs/heads/main", oid, true, "test setup").unwrap();
    repo.set_head("refs/heads/main").unwrap();
    let mut cb = git2::build::CheckoutBuilder::new();
    cb.force();
    repo.checkout_head(Some(&mut cb)).unwrap();
}

fn blob_at_head(repo: &git2::Repository, name: &str) -> String {
    let tree = repo.revparse_single("HEAD").unwrap().peel_to_tree().unwrap();
    let entry = tree.get_name(name).unwrap();
    let blob = repo.find_blob(entry.id()).unwrap();
    String::from_utf8(blob.content().to_vec()).unwrap()
}

#[test]
fn clean_walk_merges_every_snapshot_then_is_up_to_date() {
    let dir = unique_dir("clean");
    let repo = setup_repo(&dir);
    let base = commit_tree(&repo, &[("alpha.txt", "base\n")], &[]);
    set_head(&repo, base);
    let c1 = commit_tree(&repo, &[("alpha.txt", "base\n"), ("beta.txt", "one\n")], &[base]);
    let c2 = commit_tree(
        &repo,
        &[("alpha.txt", "base\n"), ("beta.txt", "one\n"), ("gamma.txt", "two\n")],
        &[c1],
    );

    let handle = Repo::open_path(&dir).unwrap();
    let pending = handle.rev_list_oldest_first("HEAD", &c2.to_string()).unwrap();
    assert_eq!(pending, vec![c1.to_string(), c2.to_string()]);

    let rules = IgnoreRules::new(&Vec::new()).unwrap();
    let report = run_walk(&handle, &pending, &rules).unwrap();
    assert_eq!(report.merged, pending);
    assert_eq!(report.succeeded_count, 2);
    assert_eq!(report.skipped_count, 0);
    assert!(report.failing_revision.is_none());
    assert!(report.ignored_paths.is_empty());

    let head = handle.commit_info("HEAD").unwrap();
    assert_eq!(head.message.unwrap(), merge_message(&c2.to_string()));

    // The forced checkout left the working tree in step with HEAD.
    assert!(!handle.has_uncommitted_changes().unwrap());

    // A second walk right away finds nothing pending: already up to date.
    let again = handle.rev_list_oldest_first("HEAD", &c2.to_string()).unwrap();
    assert!(again.is_empty());
    let report2 = run_walk(&handle, &again, &rules).unwrap();
    assert_eq!(report2.succeeded_count, 0);
    assert!(report2.merged.is_empty());
}

#[test]
fn blocking_conflict_leaves_head_untouched() {
    let dir = unique_dir("block");
    let repo = setup_repo(&dir);
    let base = commit_tree(&repo, &[("alpha.txt", "base\n")], &[]);
    let local = commit_tree(&repo, &[("alpha.txt", "local\n")], &[base]);
    set_head(&repo, local);
    let upstream = commit_tree(&repo, &[("alpha.txt", "upstream\n")], &[base]);

    let handle = Repo::open_path(&dir).unwrap();
    let pending = handle.rev_list_oldest_first("HEAD", &upstream.to_string()).unwrap();
    assert_eq!(pending, vec![upstream.to_string()]);

    let rules = IgnoreRules::new(&Vec::new()).unwrap();
    let report = run_walk(&handle, &pending, &rules).unwrap();
    assert!(report.merged.is_empty());
    assert_eq!(report.succeeded_count, 0);
    assert_eq!(report.failing_revision, Some(upstream.to_string()));
    assert_eq!(report.skipped_count, 1);

    let head = handle.commit_info("HEAD").unwrap();
    assert_eq!(head.id, local.to_string());
    assert_eq!(blob_at_head(&repo, "alpha.txt"), "local\n");
}

#[test]
fn ignored_conflict_is_auto_resolved_with_the_upstream_side() {
    let dir = unique_dir("ignored");
    let repo = setup_repo(&dir);
    let base = commit_tree(&repo, &[("alpha.txt", "base\n"), ("gen.lock", "v1\n")], &[]);
    let local = commit_tree(&repo, &[("alpha.txt", "base\n"), ("gen.lock", "local\n")], &[base]);
    set_head(&repo, local);
    let upstream =
        commit_tree(&repo, &[("alpha.txt", "base\n"), ("gen.lock", "upstream\n")], &[base]);

    let handle = Repo::open_path(&dir).unwrap();
    let pending = handle.rev_list_oldest_first("HEAD", &upstream.to_string()).unwrap();
    let rules = IgnoreRules::new(&vec!["*.lock".to_string()]).unwrap();
    let report = run_walk(&handle, &pending, &rules).unwrap();
    assert_eq!(report.merged, vec![upstream.to_string()]);
    assert_eq!(report.succeeded_count, 1);
    assert_eq!(report.skipped_count, 0);
    assert!(report.failing_revision.is_none());
    assert_eq!(report.ignored_paths, vec!["gen.lock".to_string()]);

    // The upstream side won the ignored conflict.
    assert_eq!(blob_at_head(&repo, "gen.lock"), "upstream\n");
    let head = handle.commit_info("HEAD").unwrap();
    assert_eq!(head.message.unwrap(), merge_message(&upstream.to_string()));
}

#[test]
fn squash_folds_the_marker_run_keeping_the_tree_and_both_parents() {
    let dir = unique_dir("squash");
    let repo = setup_repo(&dir);
    let base = commit_tree(&repo, &[("alpha.txt", "base\n")], &[]);
    set_head(&repo, base);
    let c1 = commit_tree(&repo, &[("alpha.txt", "base\n"), ("beta.txt", "one\n")], &[base]);
    let c2 = commit_tree(
        &repo,
        &[("alpha.txt", "base\n"), ("beta.txt", "one\n"), ("gamma.txt", "two\n")],
        &[c1],
    );

    let handle = Repo::open_path(&dir).unwrap();
    let pending = handle.rev_list_oldest_first("HEAD", &c2.to_string()).unwrap();
    let rules = IgnoreRules::new(&Vec::new()).unwrap();
    let report = run_walk(&handle, &pending, &rules).unwrap();
    assert_eq!(report.succeeded_count, 2);

    let pre_squash_tree =
        repo.revparse_single("HEAD").unwrap().peel_to_commit().unwrap().tree_id();

    let top = c2.to_string();
    let squashed = squash_all_merge_commits(&handle, &top).unwrap();
    let new_head = squashed.expect("two marker commits squash");

    let head_commit = repo.revparse_single("HEAD").unwrap().peel_to_commit().unwrap();
    assert_eq!(head_commit.id().to_string(), new_head);
    assert_eq!(head_commit.tree_id(), pre_squash_tree);
    assert_eq!(head_commit.parent_id(0).unwrap(), base);
    assert_eq!(head_commit.parent_id(1).unwrap(), c2);
    assert_eq!(head_commit.message().unwrap(), squash_message(&top));

    // The squash result carries no marker, so a second squash does nothing.
    let again = squash_all_merge_commits(&handle, &top).unwrap();
    assert!(again.is_none());
}

#[test]
fn lock_only_conflicts_are_reported_by_the_older_check() {
    let dir = unique_dir("lockcheck");
    let repo = setup_repo(&dir);
    let base = commit_tree(&repo, &[("Cargo.lock", "a\n")], &[]);
    let local = commit_tree(&repo, &[("Cargo.lock", "b\n")], &[base]);
    set_head(&repo, local);
    let upstream = commit_tree(&repo, &[("Cargo.lock", "c\n")], &[base]);

    let handle = Repo::open_path(&dir).unwrap();
    let got = handle.check_no_conflict(&upstream.to_string()).unwrap();
    assert_eq!(got, Some(true));
}

#[test]
fn conflict_whose_upstream_side_was_deleted_blocks_despite_the_rules() {
    let dir = unique_dir("deleted");
    let repo = setup_repo(&dir);
    let base = commit_tree(&repo, &[("alpha.txt", "base\n"), ("gen.lock", "v1\n")], &[]);
    let local = commit_tree(&repo, &[("alpha.txt", "base\n"), ("gen.lock", "local\n")], &[base]);
    set_head(&repo, local);
    // Upstream deletes the lock file that the local side modified.
    let upstream = commit_tree(&repo, &[("alpha.txt", "base\n")], &[base]);

    let handle = Repo::open_path(&dir).unwrap();
    let pending = handle.rev_list_oldest_first("HEAD", &upstream.to_string()).unwrap();
    let rules = IgnoreRules::new(&vec!["*.lock".to_string()]).unwrap();
    let report = run_walk(&handle, &pending, &rules).unwrap();
    assert!(report.merged.is_empty());
    assert_eq!(report.failing_revision, Some(upstream.to_string()));
    assert_eq!(report.skipped_count, 1);
}

#[test]
fn opening_a_missing_repository_fails() {
    let dir = unique_dir("missing");
    assert!(Repo::open_path(&dir).is_err());
}
