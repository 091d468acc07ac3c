use vstd::prelude::*;
use crate::errors::GitError;
use crate::ignore::IgnoreRules;
use crate::messages::{merge_message, squash_message, is_marker_text, is_marker_message};
use crate::squash::{AncestorInfo, SpecAncestor, marker_run, plan_squash};
use crate::strutil::{str_eq, strip_prefix_str};
use crate::walk::{
    attempt_allowed, check_attempt, lemma_walk_prefix, report_matches, walk_model, SpecAttempt,
    WalkReport,
};

verus! {

/// The version-control engine's repository handle, declared opaquely: the
/// library holds it and hands it to the engine, and never looks inside.
#[verifier::external_type_specification]
#[verifier::external_body]
pub struct ExRepository(git2::Repository);

/// The engine's in-memory index resulting from a merge computation, opaque.
#[verifier::external_type_specification]
#[verifier::external_body]
pub struct ExIndex(git2::Index);

/// One side's entry of a conflict, opaque; carried only so that the entry can
/// be re-staged unchanged but for its stage bits.
#[verifier::external_type_specification]
#[verifier::external_body]
pub struct ExIndexEntry(git2::IndexEntry);

/// The engine's commit handle, opaque; only passed between the wrappers.
#[verifier::external_type_specification]
#[verifier::external_body]
pub struct ExCommit<'a>(git2::Commit<'a>);

/// A repository opened for the merge walk.
pub struct Repo {
    repo: git2::Repository,
}

/// One conflicting path of a merge attempt, with the upstream ("their") side's
/// raw entry when that side exists.
pub struct ConflictEntry {
    pub path: String,
    their: Option<git2::IndexEntry>,
}

impl ConflictEntry {
    /// Whether the upstream side's entry exists, so the conflict could be
    /// re-staged with it.
    pub closed spec fn spec_has_their(&self) -> bool {
        self.their is Some
    }

    pub fn has_their(&self) -> (r: bool)
        ensures
            r == self.spec_has_their(),
    {
        self.their.is_some()
    }
}

/// The conflicting paths of a merge attempt's conflict list, in order.
pub closed spec fn conflict_paths_of(cs: Seq<ConflictEntry>) -> Seq<Seq<char>> {
    cs.map_values(|c: ConflictEntry| c.path@)
}

/// Whether every conflict of the list carries its upstream side.
pub closed spec fn all_restageable(cs: Seq<ConflictEntry>) -> bool {
    forall|i: int| 0 <= i < cs.len() ==> (#[trigger] cs[i]).spec_has_their()
}

/// A computed merge: the engine's merged index, still unwritten, and every
/// conflicting path it surfaced.
pub struct MergeComputation {
    index: git2::Index,
    pub conflicts: Vec<ConflictEntry>,
}

/// What looking up a reference by name found.
pub enum RefLookup {
    /// No reference of that name exists.
    Missing,
    /// The reference exists but points directly at an object.
    Direct,
    /// The reference is symbolic and names this target.
    Symbolic(String),
}

/// One commit's data as the squasher reads it.
pub struct CommitInfo {
    pub id: String,
    pub message: Option<String>,
    pub first_parent: Option<String>,
}

impl Repo {
    /// Relies on git2::Repository::open: attaches to the repository at the
    /// given directory.
    #[verifier::external_body]
    pub fn open_path(path: &str) -> (r: Result<Repo, GitError>) {
        match git2::Repository::open(path) {
            Ok(repo) => Ok(Repo { repo }),
            Err(e) => Err(GitError::Engine(e)),
        }
    }

    /// Attaches to the repository at the current directory.
    pub fn open() -> (r: Result<Repo, GitError>) {
        Repo::open_path(".")
    }

    /// Relies on git2::Revwalk (revwalk, set_sorting, push_range): the commits
    /// reachable from `to` and not from `from`, topologically sorted, and with
    /// REVERSE handed out oldest first.
    #[verifier::external_body]
    pub fn rev_list_oldest_first(&self, from: &str, to: &str) -> (r: Result<Vec<String>, GitError>) {
        let inner = || -> Result<Vec<String>, git2::Error> {
            let mut walk = self.repo.revwalk()?;
            walk.set_sorting(git2::Sort::TOPOLOGICAL | git2::Sort::REVERSE)?;
            walk.push_range(&format!("{}..{}", from, to))?;
            walk.map(|x| x.map(|oid| oid.to_string())).collect()
        };
        inner().map_err(GitError::Engine)
    }

    /// Relies on git2::Repository::merge_commits with fail_on_conflict(false)
    /// (computes the merged index without touching branches or the working
    /// tree) and git2::Index::conflicts (surfaces every conflicting path, not
    /// just the first). A conflict with no entry on any side fails, and a
    /// conflicting path that is not valid text fails rather than being
    /// skipped.
    #[verifier::external_body]
    pub fn attempt_merge(&self, ours: &str, theirs: &str) -> (r: Result<MergeComputation, GitError>) {
        let our = self.pick_commit(ours)?;
        let their = self.pick_commit(theirs)?;
        let mut opts = git2::MergeOptions::new();
        opts.fail_on_conflict(false);
        let index = self.repo.merge_commits(&our, &their, Some(&opts)).map_err(GitError::Engine)?;
        let conflicts = conflict_records(&index)?;
        Ok(MergeComputation { index, conflicts })
    }

    /// Relies on git2::Repository::revparse_single and Object::peel_to_commit:
    /// the commit a revision name resolves to. (Used only by the wrappers.)
    #[verifier::external_body]
    fn pick_commit(&self, name: &str) -> (r: Result<git2::Commit<'_>, GitError>) {
        let object = self.repo.revparse_single(name).map_err(GitError::Engine)?;
        object.peel_to_commit().map_err(|_| GitError::NotACommit(name.to_string()))
    }

    /// Relies on git2::IndexEntry's public `flags` field: the flags word of
    /// the upstream side's entry of conflict `i`.
    #[verifier::external_body]
    fn conflict_their_flags(m: &MergeComputation, i: usize) -> (r: u16)
        requires
            i < m.conflicts@.len(),
            m.conflicts@[i as int].spec_has_their(),
    {
        m.conflicts[i].their.as_ref().unwrap().flags
    }

    /// Relies on git2::Index::remove_path (drops the conflict records for the
    /// path) and git2::Index::add (stages the given entry): replaces conflict
    /// `i`'s staged records with its upstream side carrying `flags`. The
    /// conflict list itself is left as it was.
    #[verifier::external_body]
    fn restage_their(m: &mut MergeComputation, i: usize, flags: u16) -> (r: Result<(), GitError>)
        requires
            i < old(m).conflicts@.len(),
            old(m).conflicts@[i as int].spec_has_their(),
        ensures
            final(m).conflicts == old(m).conflicts,
    {
        let e = m.conflicts[i].their.as_ref().unwrap();
        let entry = git2::IndexEntry {
            ctime: e.ctime, mtime: e.mtime, dev: e.dev, ino: e.ino, mode: e.mode,
            uid: e.uid, gid: e.gid, file_size: e.file_size, id: e.id,
            flags, flags_extended: e.flags_extended, path: e.path.clone(),
        };
        let path = std::path::Path::new(core::str::from_utf8(&e.path).map_err(|_| GitError::InvalidUtf8)?);
        m.index.remove_path(path).map_err(GitError::Engine)?;
        m.index.add(&entry).map_err(GitError::Engine)
    }

    /// Relies on git2::Index::write_tree_to, git2::Repository::commit with
    /// update_ref "HEAD" (writes one commit whose tree is the merged index and
    /// whose parents are HEAD and `theirs`, and advances HEAD with it), and a
    /// forced checkout_head to sync the working tree.
    #[verifier::external_body]
    fn write_merge_commit(&self, m: &mut MergeComputation, theirs: &str, message: &str) -> (r:
        Result<String, GitError>) {
        let our = self.pick_commit("HEAD")?;
        let their = self.pick_commit(theirs)?;
        let mut inner = || -> Result<String, git2::Error> {
            let tree = self.repo.find_tree(m.index.write_tree_to(&self.repo)?)?;
            let sig = self.repo.signature()?;
            let oid = self.repo.commit(Some("HEAD"), &sig, &sig, message, &tree, &[&our, &their])?;
            let mut checkout = git2::build::CheckoutBuilder::new();
            checkout.force();
            self.repo.checkout_head(Some(&mut checkout))?;
            Ok(oid.to_string())
        };
        inner().map_err(GitError::Engine)
    }

    /// Relies on git2 diff_tree_to_workdir_with_index against HEAD's tree:
    /// the number of files differing between HEAD and the working state; fails
    /// only through the engine.
    #[verifier::external_body]
    fn files_changed(&self) -> (r: Result<usize, GitError>)
        ensures
            r matches Err(e) ==> e is Engine,
    {
        let inner = || -> Result<usize, git2::Error> {
            let tree = self.repo.head()?.peel_to_tree()?;
            let diff = self.repo.diff_tree_to_workdir_with_index(Some(&tree), None)?;
            Ok(diff.stats()?.files_changed())
        };
        inner().map_err(GitError::Engine)
    }

    /// Relies on git2 Commit::id, Commit::message (an error exactly when the
    /// message is not valid text) and Commit::parent_id(0) (an error exactly
    /// when the commit has no parent).
    #[verifier::external_body]
    pub fn commit_info(&self, rev: &str) -> (r: Result<CommitInfo, GitError>) {
        let c = self.pick_commit(rev)?;
        Ok(CommitInfo {
            id: c.id().to_string(),
            message: c.message().ok().map(|m| m.to_string()),
            first_parent: c.parent_id(0).ok().map(|p| p.to_string()),
        })
    }

    /// Relies on git2::Repository::commit with no update_ref (writes one
    /// commit object carrying the pre-squash HEAD's tree, with parents `base`
    /// and `top`, touching no reference) and then one
    /// Reference::set_target / set_head_detached that points the current
    /// branch, or a detached HEAD, at it: a failure in between leaves every
    /// reference where it was.
    #[verifier::external_body]
    fn squash_commit(&self, base: &str, top: &str, message: &str) -> (r: Result<String, GitError>) {
        let p0 = self.pick_commit(base)?;
        let p1 = self.pick_commit(top)?;
        let head = self.pick_commit("HEAD")?;
        let inner = || -> Result<String, git2::Error> {
            let tree = self.repo.find_tree(head.tree_id())?;
            let sig = self.repo.signature()?;
            let oid = self.repo.commit(None, &sig, &sig, message, &tree, &[&p0, &p1])?;
            match self.repo.head() {
                Ok(mut r) if r.is_branch() => { r.set_target(oid, message)?; },
                _ => self.repo.set_head_detached(oid)?,
            }
            Ok(oid.to_string())
        };
        inner().map_err(GitError::Engine)
    }

    /// Relies on git2::Repository::find_reference (NotFound is told apart by
    /// its error code) and Reference::symbolic_target (None exactly when the
    /// reference is direct; an error when the target is not valid text). Fails
    /// only through the engine or on a target that is not valid text.
    #[verifier::external_body]
    fn find_reference_target(&self, name: &str) -> (r: Result<RefLookup, GitError>)
        ensures
            r matches Err(e) ==> e is Engine || e is InvalidUtf8,
    {
        match self.repo.find_reference(name) {
            Ok(re) => match re.symbolic_target() {
                Ok(Some(t)) => Ok(RefLookup::Symbolic(t.to_string())),
                Ok(None) => Ok(RefLookup::Direct),
                Err(_) => Err(GitError::InvalidUtf8),
            },
            Err(e) if e.code() == git2::ErrorCode::NotFound => Ok(RefLookup::Missing),
            Err(e) => Err(GitError::Engine(e)),
        }
    }

    /// True when the working state differs from HEAD; the walk must not start
    /// then. The answer is `count_indicates_changes` of the engine's
    /// changed-file count.
    pub fn has_uncommitted_changes(&self) -> (r: Result<bool, GitError>)
        ensures
            r matches Err(e) ==> e is Engine,
    {
        match self.files_changed() {
            Ok(n) => Ok(count_indicates_changes(n)),
            Err(e) => Err(e),
        }
    }

    /// The default branch of `remote`: the target of the remote's symbolic
    /// HEAD reference with its reference prefix stripped, or `remote`/master
    /// when the remote has no HEAD reference here.
    pub fn get_default_branch(&self, remote: &str) -> (r: Result<String, GitError>)
        ensures
            r matches Ok(b) ==> (b@ == remote@ + "/master"@ || (exists|t: Seq<char>|
                "refs/remotes/"@.is_prefix_of(t) && b@ == t.skip(
                    "refs/remotes/"@.len() as int,
                ))),
            r matches Err(e) ==> (e is HeadIsNotSymbolic || e is InvalidTarget || e is Engine
                || e is InvalidUtf8),
    {
        let mut name = String::from_str("refs/remotes/");
        name.append(remote);
        name.append("/HEAD");
        let lookup = match self.find_reference_target(name.as_str()) {
            Ok(l) => l,
            Err(e) => {
                return Err(e);
            },
        };
        let ghost glookup = lookup;
        let result = default_branch_from_target(remote, lookup);
        proof {
            match glookup {
                RefLookup::Symbolic(t) => {
                    if "refs/remotes/"@.is_prefix_of(t@) {
                        match &result {
                            Ok(b) => {
                                assert("refs/remotes/"@.is_prefix_of(t@) && b@ == t@.skip(
                                    "refs/remotes/"@.len() as int,
                                ));
                            },
                            Err(_) => {},
                        }
                    }
                },
                _ => {},
            }
        }
        result
    }
}

/// Whether a changed-file count reports uncommitted changes: any nonzero
/// count does.
pub fn count_indicates_changes(n: usize) -> (b: bool)
    ensures
        b == (n > 0),
{
    n > 0
}

/// Turns what the remote's HEAD reference held into the default branch name:
/// no reference at all falls back to `remote`/master; a direct reference or a
/// target outside refs/remotes/ is rejected; otherwise the target with the
/// prefix stripped.
pub fn default_branch_from_target(remote: &str, lookup: RefLookup) -> (r: Result<String, GitError>)
    ensures
        lookup is Missing ==> (r matches Ok(b) && b@ == remote@ + "/master"@),
        lookup is Direct ==> (r matches Err(e) && e is HeadIsNotSymbolic),
        lookup matches RefLookup::Symbolic(t) ==> (if "refs/remotes/"@.is_prefix_of(t@) {
            r matches Ok(b) && b@ == t@.skip("refs/remotes/"@.len() as int)
        } else {
            r matches Err(e) && e is InvalidTarget
        }),
{
    match lookup {
        RefLookup::Missing => {
            let mut b = remote.to_owned();
            b.append("/master");
            Ok(b)
        },
        RefLookup::Direct => Err(GitError::HeadIsNotSymbolic),
        RefLookup::Symbolic(t) => match strip_prefix_str(t.as_str(), "refs/remotes/") {
            Some(rest) => Ok(rest),
            None => Err(GitError::InvalidTarget),
        },
    }
}

/// Relies on git2::Index::conflicts: one record for every conflicting path of
/// the merged index. A conflict with no entry on any side fails, and a
/// conflicting path that is not valid text fails rather than being skipped.
#[verifier::external_body]
fn conflict_records(index: &git2::Index) -> (r: Result<Vec<ConflictEntry>, GitError>) {
    let mut conflicts = Vec::new();
    for item in index.conflicts().map_err(GitError::Engine)? {
        let item = item.map_err(GitError::Engine)?;
        let probe = item.their.as_ref().or(item.our.as_ref()).or(item.ancestor.as_ref());
        let raw_path = &probe.ok_or(GitError::NoIndexEntryForTheir)?.path;
        let path = core::str::from_utf8(raw_path).map_err(|_| GitError::InvalidUtf8)?;
        conflicts.push(ConflictEntry { path: path.to_string(), their: item.their });
    }
    Ok(conflicts)
}

/// Collects every conflicting path of the computation, and whether every
/// conflict carries its upstream side.
fn conflict_path_list(m: &MergeComputation) -> (r: (Vec<String>, bool))
    ensures
        r.0@.map_values(|p: String| p@) == conflict_paths_of(m.conflicts@),
        r.1 == all_restageable(m.conflicts@),
{
    let mut paths: Vec<String> = Vec::new();
    let mut restageable = true;
    let mut i: usize = 0;
    while i < m.conflicts.len()
        invariant
            0 <= i <= m.conflicts@.len(),
            paths@.len() == i,
            forall|k: int| 0 <= k < i ==> paths@[k]@ == m.conflicts@[k].path@,
            restageable == (forall|k: int|
                0 <= k < i ==> (#[trigger] m.conflicts@[k]).spec_has_their()),
        decreases m.conflicts@.len() - i,
    {
        paths.push(m.conflicts[i].path.clone());
        if !m.conflicts[i].has_their() {
            restageable = false;
        }
        i += 1;
    }
    proof {
        let cs = m.conflicts@;
        assert forall|k: int| 0 <= k < cs.len() implies paths@.map_values(|p: String| p@)[k]
            == #[trigger] conflict_paths_of(cs)[k] by {
            assert(paths@.map_values(|p: String| p@)[k] == paths@[k]@);
            assert(conflict_paths_of(cs)[k] == cs[k].path@);
        }
        assert(paths@.map_values(|p: String| p@) =~= conflict_paths_of(cs));
    }
    (paths, restageable)
}

fn walk_rec(repo: &Repo, pending: &Vec<String>, idx: usize, rules: &IgnoreRules) -> (r: Result<
    (WalkReport, Ghost<Seq<SpecAttempt>>),
    GitError,
>)
    requires
        idx <= pending@.len(),
    ensures
        idx == pending@.len() ==> r is Ok,
        r matches Ok(pair) ==> report_matches(
            pair.0,
            walk_model(
                pending@.map_values(|p: String| p@).skip(idx as int),
                pair.1@,
                rules@,
            ),
        ),
    decreases pending@.len() - idx,
{
    let ghost pview = pending@.map_values(|p: String| p@);
    if idx == pending.len() {
        let rep = WalkReport {
            merged: Vec::new(),
            ignored_paths: Vec::new(),
            failing_revision: None,
            succeeded_count: 0,
            skipped_count: 0,
        };
        return Ok((rep, Ghost(Seq::<SpecAttempt>::empty())));
    }
    let rev = &pending[idx];
    let mut m = match repo.attempt_merge("HEAD", rev.as_str()) {
        Ok(m) => m,
        Err(e) => {
            return Err(e);
        },
    };
    let (paths, restageable) = conflict_path_list(&m);
    let ghost attempt = SpecAttempt {
        conflicts: conflict_paths_of(m.conflicts@),
        restageable: all_restageable(m.conflicts@),
    };
    let allowed = check_attempt(&paths, restageable, rules);
    proof {
        assert(allowed == attempt_allowed(attempt, rules@));
        assert(pview.skip(idx as int)[0] == pview[idx as int]);
        assert(pview[idx as int] == pending@[idx as int]@);
    }
    if !allowed {
        let rep = WalkReport {
            merged: Vec::new(),
            ignored_paths: Vec::new(),
            failing_revision: Some(rev.clone()),
            succeeded_count: 0,
            skipped_count: pending.len() - idx,
        };
        proof {
            assert(pview.skip(idx as int).len() == pending@.len() - idx);
        }
        let ghost single = seq![attempt];
        return Ok((rep, Ghost(single)));
    }
    let ghost orig_conflicts = m.conflicts@;
    let mut i: usize = 0;
    while i < m.conflicts.len()
        invariant
            idx < pending@.len(),
            0 <= i <= m.conflicts@.len(),
            m.conflicts@ == orig_conflicts,
            m.conflicts@.len() > 0 ==> all_restageable(m.conflicts@),
        decreases m.conflicts@.len() - i,
    {
        let flags = Repo::conflict_their_flags(&m, i);
        // The two stage bits of the flags word mark a conflict side; cleared,
        // the entry stages as an ordinary resolved file.
        let cleared = flags & 0xcfff;
        match Repo::restage_their(&mut m, i, cleared) {
            Ok(()) => {},
            Err(e) => {
                return Err(e);
            },
        }
        i += 1;
    }
    let message = merge_message(rev.as_str());
    match repo.write_merge_commit(&mut m, rev.as_str(), message.as_str()) {
        Ok(_new_head) => {},
        Err(e) => {
            return Err(e);
        },
    }
    let (rest, rest_outs) = match walk_rec(repo, pending, idx + 1, rules) {
        Ok(pair) => pair,
        Err(e) => {
            return Err(e);
        },
    };
    let WalkReport {
        merged: rest_merged,
        ignored_paths: rest_ignored,
        failing_revision: rest_failing,
        succeeded_count: _,
        skipped_count: rest_skipped,
    } = rest;
    let mut merged: Vec<String> = Vec::new();
    merged.push(rev.clone());
    let mut rest_merged = rest_merged;
    merged.append(&mut rest_merged);
    let mut ignored = paths;
    let mut rest_ignored = rest_ignored;
    ignored.append(&mut rest_ignored);
    let succeeded = merged.len();
    let rep = WalkReport {
        merged,
        ignored_paths: ignored,
        failing_revision: rest_failing,
        succeeded_count: succeeded,
        skipped_count: rest_skipped,
    };
    let ghost outs = seq![attempt] + rest_outs@;
    proof {
        let s = pview.skip(idx as int);
        assert(s.drop_first() =~= pview.skip(idx + 1));
        assert(outs.drop_first() =~= rest_outs@);
        let w = walk_model(s, outs, rules@);
        let wrest = walk_model(pview.skip(idx + 1), rest_outs@, rules@);
        assert(w.merged == seq![s[0]] + wrest.merged);
        assert(rep.merged@.map_values(|p: String| p@) =~= w.merged);
        assert(rep.ignored_paths@.map_values(|p: String| p@) =~= w.ignored);
    }
    Ok((rep, Ghost(outs)))
}

/// Advances HEAD by merging the pending revisions strictly oldest first:
/// each allowed attempt is committed with parents HEAD and the revision, an
/// attempt with conflicts is committed only when every conflicting path
/// matches the ignore rules (its conflicts re-staged with their upstream
/// side), and the first attempt not allowed blocks the walk on exactly that
/// revision — later revisions are never attempted. The report is the walk
/// model's outcome for what the engine answered: the merged revisions are an
/// initial segment of `pending`, and the skipped count is the distance still
/// owed when blocked.
pub fn run_walk(repo: &Repo, pending: &Vec<String>, rules: &IgnoreRules) -> (r: Result<
    WalkReport,
    GitError,
>)
    ensures
        pending@.len() == 0 ==> r is Ok,
        r matches Ok(rep) ==> ({
            let pview = pending@.map_values(|p: String| p@);
            let mlen = rep.merged@.len() as int;
            &&& (exists|outs: Seq<SpecAttempt>| report_matches(
                rep,
                #[trigger] walk_model(pview, outs, rules@),
            ))
            &&& rep.succeeded_count == rep.merged@.len()
            &&& rep.merged@.len() <= pview.len()
            &&& rep.merged@.map_values(|p: String| p@) =~= pview.take(mlen)
            &&& (rep.failing_revision is None ==> rep.merged@.len() == pview.len()
                && rep.skipped_count == 0)
            &&& (rep.failing_revision matches Some(f) ==> rep.merged@.len() < pview.len() && f@
                == pview[mlen] && rep.skipped_count == pview.len() - rep.merged@.len())
        }),
{
    match walk_rec(repo, pending, 0, rules) {
        Ok((rep, outs)) => {
            proof {
                let pview = pending@.map_values(|p: String| p@);
                assert(pview.skip(0) =~= pview);
                lemma_walk_prefix(pview, outs@, rules@);
                let w = walk_model(pview, outs@, rules@);
                assert(rep.merged@.map_values(|p: String| p@).len() == rep.merged@.len());
                assert(rep.merged@.map_values(|p: String| p@) =~= pview.take(
                    rep.merged@.len() as int,
                ));
            }
            Ok(rep)
        },
        Err(e) => Err(e),
    }
}

/// Reads HEAD's first-parent ancestry, collecting the leading run of commits
/// whose message carries this engine's marker; a commit whose message is
/// missing or not valid text ends the run, as does one with no parent, which
/// can only stand last.
pub fn head_ancestry(repo: &Repo) -> (r: Result<Vec<AncestorInfo>, GitError>)
    ensures
        r matches Ok(v) ==> forall|k: int| 0 <= k < v@.len() ==> is_marker_text(
            #[trigger] v@[k]@.message,
        ),
        r matches Ok(v) ==> forall|k: int| 0 <= k < v@.len() - 1 ==> (#[trigger] v@[k]@)
            .first_parent is Some,
{
    let mut out: Vec<AncestorInfo> = Vec::new();
    let mut next: String = String::from_str("HEAD");
    let mut steps_left: usize = usize::MAX;
    while steps_left > 0
        invariant_except_break
            forall|k: int| 0 <= k < out@.len() ==> (#[trigger] out@[k]@).first_parent is Some,
        invariant
            forall|k: int| 0 <= k < out@.len() ==> is_marker_text(#[trigger] out@[k]@.message),
        ensures
            forall|k: int| 0 <= k < out@.len() ==> is_marker_text(#[trigger] out@[k]@.message),
            forall|k: int| 0 <= k < out@.len() - 1 ==> (#[trigger] out@[k]@).first_parent
                is Some,
        decreases steps_left,
    {
        let info = match repo.commit_info(next.as_str()) {
            Ok(i) => i,
            Err(e) => {
                return Err(e);
            },
        };
        let message = match info.message {
            Option::Some(s) => s,
            Option::None => String::new(),
        };
        if !is_marker_message(message.as_str()) {
            break;
        }
        match info.first_parent {
            Option::Some(parent) => {
                let again = parent.clone();
                out.push(
                    AncestorInfo { id: info.id, message, first_parent: Some(parent) },
                );
                next = again;
            },
            Option::None => {
                out.push(AncestorInfo { id: info.id, message, first_parent: None });
                break;
            },
        }
        steps_left -= 1;
    }
    Ok(out)
}

/// How a squash answer relates to the marker ancestry it was planned from:
/// the ancestry is a run of marker commits, and a commit was written exactly
/// when that run has at least two commits and a base to stand on.
pub open spec fn squash_decision(anc: Seq<SpecAncestor>, opt: Option<String>) -> bool {
    &&& (forall|k: int| 0 <= k < anc.len() ==> is_marker_text(#[trigger] anc[k].message))
    &&& (opt is Some <==> 2 <= marker_run(anc) && anc[marker_run(anc) - 1].first_parent is Some)
}

/// When HEAD's leading first-parent ancestry holds at least two of this
/// engine's marker commits, folds exactly that run: writes one commit carrying
/// HEAD's tree whose parents are the commit preceding the run and `top_rev`,
/// and moves the branch to it; answers its identifier. With fewer than two
/// marker commits, or none with a parent to stand on, nothing is touched.
pub fn squash_all_merge_commits(repo: &Repo, top_rev: &str) -> (r: Result<Option<String>, GitError>)
    ensures
        r matches Ok(opt) ==> (exists|anc: Seq<SpecAncestor>| #[trigger] squash_decision(
            anc,
            opt,
        )),
{
    let ancestry = match head_ancestry(repo) {
        Ok(v) => v,
        Err(e) => {
            return Err(e);
        },
    };
    let ghost av = ancestry@.map_values(|a: AncestorInfo| a@);
    proof {
        assert forall|k: int| 0 <= k < av.len() implies is_marker_text(
            #[trigger] av[k].message,
        ) by {
            assert(av[k] == ancestry@[k]@);
        }
    }
    match plan_squash(&ancestry) {
        Option::Some(plan) => {
            let message = squash_message(top_rev);
            match repo.squash_commit(plan.base.as_str(), top_rev, message.as_str()) {
                Ok(id) => {
                    let out = Some(id);
                    proof {
                        assert(squash_decision(av, out));
                    }
                    Ok(out)
                },
                Err(e) => Err(e),
            }
        },
        Option::None => {
            proof {
                assert(squash_decision(av, None::<String>));
            }
            Ok(None)
        },
    }
}

/// How the older fixed-rule check's verdict relates to a conflict path list:
/// no verdict exactly when some path is not the dependency lock file, else
/// whether the lock file conflicted at all.
pub open spec fn lock_only_verdict(paths: Seq<Seq<char>>, opt: Option<bool>) -> bool {
    &&& (opt is None <==> (exists|j: int| 0 <= j < paths.len() && paths[j] != "Cargo.lock"@))
    &&& (opt matches Some(b) ==> b == (paths.len() > 0) && (forall|j: int|
        0 <= j < paths.len() ==> paths[j] == "Cargo.lock"@))
}

/// The older fixed-rule check: `None` exactly when some conflicting path is
/// not the dependency lock file; otherwise whether the lock file conflicted at
/// all.
pub fn cargo_lock_only(paths: &Vec<String>) -> (r: Option<bool>)
    ensures
        lock_only_verdict(paths@.map_values(|p: String| p@), r),
{
    let ghost pv = paths@.map_values(|p: String| p@);
    let mut i: usize = 0;
    while i < paths.len()
        invariant
            0 <= i <= paths@.len(),
            pv == paths@.map_values(|p: String| p@),
            forall|j: int| 0 <= j < i ==> paths@[j]@ == "Cargo.lock"@,
        decreases paths@.len() - i,
    {
        if !str_eq(paths[i].as_str(), "Cargo.lock") {
            proof {
                assert(pv[i as int] == paths@[i as int]@);
                assert(pv[i as int] != "Cargo.lock"@);
            }
            return None;
        }
        i += 1;
    }
    proof {
        assert forall|j: int| 0 <= j < pv.len() implies pv[j] == "Cargo.lock"@ by {
            assert(pv[j] == paths@[j]@);
        }
    }
    Some(paths.len() > 0)
}

impl Repo {
    /// Attempts the merge of HEAD with `branch_name` and reports whether its
    /// conflicts are confined to the dependency lock file: the answer is
    /// `lock_only_verdict` of the conflicting paths the engine surfaced.
    /// `Err(NoIndexEntryForTheir)` when a conflict lacks its upstream side.
    /// Nothing is written.
    pub fn check_no_conflict(&self, branch_name: &str) -> (r: Result<Option<bool>, GitError>)
        ensures
            r matches Ok(opt) ==> (exists|paths: Seq<Seq<char>>| #[trigger] lock_only_verdict(
                paths,
                opt,
            )),
    {
        let m = match self.attempt_merge("HEAD", branch_name) {
            Ok(m) => m,
            Err(e) => {
                return Err(e);
            },
        };
        let (paths, restageable) = conflict_path_list(&m);
        if !restageable {
            return Err(GitError::NoIndexEntryForTheir);
        }
        let verdict = cargo_lock_only(&paths);
        proof {
            assert(lock_only_verdict(paths@.map_values(|p: String| p@), verdict));
        }
        Ok(verdict)
    }
}

} // verus!
