use vstd::prelude::*;
use crate::ignore::{all_ignored, path_ignored, classify, Classification, IgnoreRules};

verus! {

/// One merge attempt as the walk sees it: the conflicting paths the engine
/// surfaced (empty for a clean merge), and whether every conflict carries the
/// upstream-side entry needed to re-stage it.
pub ghost struct SpecAttempt {
    pub conflicts: Seq<Seq<char>>,
    pub restageable: bool,
}

/// Exec counterpart of `SpecAttempt`, used to drive the walk off-line.
pub struct AttemptInfo {
    pub conflict_paths: Vec<String>,
    pub restageable: bool,
}

impl View for AttemptInfo {
    type V = SpecAttempt;

    open spec fn view(&self) -> SpecAttempt {
        SpecAttempt {
            conflicts: self.conflict_paths@.map_values(|p: String| p@),
            restageable: self.restageable,
        }
    }
}

/// An attempt may be auto-resolved exactly when it has no conflicts at all, or
/// every conflicting path matches the ignore rules and every conflict can be
/// re-staged with its upstream side. A single path outside the rules vetoes
/// the whole attempt.
pub open spec fn attempt_allowed(a: SpecAttempt, rules: Seq<Seq<char>>) -> bool {
    a.conflicts.len() == 0 || (a.restageable && all_ignored(a.conflicts, rules))
}

/// The walk's terminal outcome over a pending revision range: which revisions
/// were merged (oldest first), the conflicting paths that were ignored along
/// the way, the blocking revision if one was hit, and how many revisions of
/// the range remained unmerged at that moment.
pub ghost struct SpecWalk {
    pub merged: Seq<Seq<char>>,
    pub ignored: Seq<Seq<char>>,
    pub failing: Option<Seq<char>>,
    pub skipped: nat,
}

/// The merge walk as a function of the pending revisions (oldest first), the
/// outcome the engine hands back for each attempted merge, and the ignore
/// rules: revisions are taken strictly oldest first; an allowed attempt is
/// committed and the walk goes on; the first attempt that is not allowed
/// blocks the walk on exactly that revision, and nothing after it is touched.
pub open spec fn walk_model(
    pending: Seq<Seq<char>>,
    outcomes: Seq<SpecAttempt>,
    rules: Seq<Seq<char>>,
) -> SpecWalk
    decreases pending.len(),
{
    if pending.len() == 0 {
        SpecWalk {
            merged: Seq::<Seq<char>>::empty(),
            ignored: Seq::<Seq<char>>::empty(),
            failing: None::<Seq<char>>,
            skipped: 0,
        }
    } else {
        let a = outcomes[0];
        if attempt_allowed(a, rules) {
            let rest = walk_model(pending.drop_first(), outcomes.drop_first(), rules);
            SpecWalk {
                merged: seq![pending[0]] + rest.merged,
                ignored: a.conflicts + rest.ignored,
                failing: rest.failing,
                skipped: rest.skipped,
            }
        } else {
            SpecWalk {
                merged: Seq::<Seq<char>>::empty(),
                ignored: Seq::<Seq<char>>::empty(),
                failing: Some(pending[0]),
                skipped: pending.len(),
            }
        }
    }
}

/// The walk's terminal report.
pub struct WalkReport {
    pub merged: Vec<String>,
    pub ignored_paths: Vec<String>,
    pub failing_revision: Option<String>,
    pub succeeded_count: usize,
    pub skipped_count: usize,
}

/// How a terminal report corresponds to the walk model's outcome.
pub open spec fn report_matches(rep: WalkReport, w: SpecWalk) -> bool {
    &&& rep.merged@.map_values(|p: String| p@) =~= w.merged
    &&& rep.ignored_paths@.map_values(|p: String| p@) =~= w.ignored
    &&& (match (rep.failing_revision, w.failing) {
        (Option::None, Option::None) => true,
        (Option::Some(a), Option::Some(b)) => a@ == b,
        _ => false,
    })
    &&& rep.skipped_count == w.skipped
    &&& rep.succeeded_count == rep.merged@.len()
}

/// Decides one attempt, as `attempt_allowed` does.
pub fn check_attempt(paths: &Vec<String>, restageable: bool, rules: &IgnoreRules) -> (r: bool)
    ensures
        r == attempt_allowed(
            SpecAttempt { conflicts: paths@.map_values(|p: String| p@), restageable },
            rules@,
        ),
{
    if paths.len() == 0 {
        return true;
    }
    if !restageable {
        return false;
    }
    match classify(paths, rules) {
        Classification::Allowed => true,
        Classification::Blocked(_) => false,
    }
}

fn copy_strings(v: &Vec<String>) -> (r: Vec<String>)
    ensures
        r@ == v@,
{
    let mut r: Vec<String> = Vec::new();
    let mut i: usize = 0;
    while i < v.len()
        invariant
            0 <= i <= v@.len(),
            r@ =~= v@.take(i as int),
        decreases v@.len() - i,
    {
        r.push(v[i].clone());
        proof {
            assert(r@ =~= v@.take(i + 1));
        }
        i += 1;
    }
    proof {
        assert(v@.take(v@.len() as int) =~= v@);
    }
    r
}

fn walk_sim(
    pending: &Vec<String>,
    outcomes: &Vec<AttemptInfo>,
    idx: usize,
    rules: &IgnoreRules,
) -> (r: WalkReport)
    requires
        idx <= pending@.len(),
        pending@.len() <= outcomes@.len(),
    ensures
        report_matches(
            r,
            walk_model(
                pending@.map_values(|p: String| p@).skip(idx as int),
                outcomes@.map_values(|a: AttemptInfo| a@).skip(idx as int),
                rules@,
            ),
        ),
    decreases pending@.len() - idx,
{
    let ghost pview = pending@.map_values(|p: String| p@);
    let ghost oview = outcomes@.map_values(|a: AttemptInfo| a@);
    if idx == pending.len() {
        let rep = WalkReport {
            merged: Vec::new(),
            ignored_paths: Vec::new(),
            failing_revision: None,
            succeeded_count: 0,
            skipped_count: 0,
        };
        return rep;
    }
    let attempt = &outcomes[idx];
    let allowed = check_attempt(&attempt.conflict_paths, attempt.restageable, rules);
    proof {
        assert(oview[idx as int] == outcomes@[idx as int]@);
        assert(allowed == attempt_allowed(oview.skip(idx as int)[0], rules@));
    }
    if !allowed {
        let rep = WalkReport {
            merged: Vec::new(),
            ignored_paths: Vec::new(),
            failing_revision: Some(pending[idx].clone()),
            succeeded_count: 0,
            skipped_count: pending.len() - idx,
        };
        proof {
            assert(pview.skip(idx as int)[0] == pview[idx as int]);
            assert(pview[idx as int] == pending@[idx as int]@);
            assert(pview.skip(idx as int).len() == pending@.len() - idx);
        }
        return rep;
    }
    let rest = walk_sim(pending, outcomes, idx + 1, rules);
    let WalkReport {
        merged: rest_merged,
        ignored_paths: rest_ignored,
        failing_revision: rest_failing,
        succeeded_count: _,
        skipped_count: rest_skipped,
    } = rest;
    let mut merged: Vec<String> = Vec::new();
    merged.push(pending[idx].clone());
    let mut rest_merged = rest_merged;
    merged.append(&mut rest_merged);
    let mut ignored = copy_strings(&attempt.conflict_paths);
    let mut rest_ignored = rest_ignored;
    ignored.append(&mut rest_ignored);
    let succeeded = merged.len();
    let rep = WalkReport {
        merged,
        ignored_paths: ignored,
        failing_revision: rest_failing,
        succeeded_count: succeeded,
        skipped_count: rest_skipped,
    };
    proof {
        let s = pview.skip(idx as int);
        let o = oview.skip(idx as int);
        assert(s[0] == pview[idx as int]);
        assert(pview[idx as int] == pending@[idx as int]@);
        assert(s.drop_first() =~= pview.skip(idx + 1));
        assert(o.drop_first() =~= oview.skip(idx + 1));
        let w = walk_model(s, o, rules@);
        let wrest = walk_model(pview.skip(idx + 1), oview.skip(idx + 1), rules@);
        assert(w.merged == seq![s[0]] + wrest.merged);
        assert(rep.merged@.map_values(|p: String| p@) =~= w.merged);
        assert(o[0].conflicts == attempt.conflict_paths@.map_values(|p: String| p@));
        assert(rep.ignored_paths@.map_values(|p: String| p@) =~= w.ignored);
    }
    rep
}

/// Runs the merge walk off-line: `outcomes[i]` stands for what the engine
/// would hand back when merging `pending[i]` (oldest first). The report is
/// exactly the walk model's outcome.
pub fn walk_outcomes(
    pending: &Vec<String>,
    outcomes: &Vec<AttemptInfo>,
    rules: &IgnoreRules,
) -> (r: WalkReport)
    requires
        pending@.len() <= outcomes@.len(),
    ensures
        report_matches(
            r,
            walk_model(
                pending@.map_values(|p: String| p@),
                outcomes@.map_values(|a: AttemptInfo| a@),
                rules@,
            ),
        ),
{
    let r = walk_sim(pending, outcomes, 0, rules);
    proof {
        assert(pending@.map_values(|p: String| p@).skip(0) =~= pending@.map_values(
            |p: String| p@,
        ));
        assert(outcomes@.map_values(|a: AttemptInfo| a@).skip(0) =~= outcomes@.map_values(
            |a: AttemptInfo| a@,
        ));
    }
    r
}

/// Prefix property: a walk merges exactly an initial segment of the pending
/// range; when nothing blocks, that segment is the whole range and nothing is
/// skipped; when a revision blocks, it is exactly the next one after the
/// merged prefix, and the skipped count is the distance still owed.
pub proof fn lemma_walk_prefix(
    pending: Seq<Seq<char>>,
    outcomes: Seq<SpecAttempt>,
    rules: Seq<Seq<char>>,
)
    ensures
        ({
            let w = walk_model(pending, outcomes, rules);
            &&& w.merged.len() <= pending.len()
            &&& w.merged =~= pending.take(w.merged.len() as int)
            &&& (w.failing is None ==> w.merged.len() == pending.len() && w.skipped == 0)
            &&& (w.failing is Some ==> w.merged.len() < pending.len() && w.failing == Some(
                pending[w.merged.len() as int],
            ) && w.skipped == pending.len() - w.merged.len())
        }),
    decreases pending.len(),
{
    let w = walk_model(pending, outcomes, rules);
    if pending.len() == 0 {
        assert(w.merged =~= pending.take(0));
    } else {
        let a = outcomes[0];
        if attempt_allowed(a, rules) {
            lemma_walk_prefix(pending.drop_first(), outcomes.drop_first(), rules);
            let rest = walk_model(pending.drop_first(), outcomes.drop_first(), rules);
            assert(w.merged =~= pending.take(w.merged.len() as int)) by {
                assert(rest.merged =~= pending.drop_first().take(rest.merged.len() as int));
            }
            if w.failing is Some {
                assert(pending[w.merged.len() as int] == pending.drop_first()[rest.merged.len() as int]);
            }
        } else {
            assert(w.merged =~= pending.take(0));
        }
    }
}

/// Veto totality: if every attempt before position `j` is allowed and some
/// conflicting path of attempt `j` matches no ignore rule, then no commit is
/// created for revision `j` or after it — the walk merges exactly the first
/// `j` revisions and blocks on exactly `pending[j]`.
pub proof fn lemma_veto_totality(
    pending: Seq<Seq<char>>,
    outcomes: Seq<SpecAttempt>,
    rules: Seq<Seq<char>>,
    j: int,
)
    requires
        0 <= j < pending.len(),
        j < outcomes.len(),
        forall|i: int| 0 <= i < j ==> attempt_allowed(#[trigger] outcomes[i], rules),
        exists|p: Seq<char>| #[trigger] outcomes[j].conflicts.contains(p) && !path_ignored(
            rules,
            p,
        ),
    ensures
        ({
            let w = walk_model(pending, outcomes, rules);
            &&& w.failing == Some(pending[j])
            &&& w.merged =~= pending.take(j)
            &&& w.skipped == pending.len() - j
        }),
    decreases j,
{
    let w = walk_model(pending, outcomes, rules);
    assert(!attempt_allowed(outcomes[j], rules)) by {
        let p = choose|p: Seq<char>|
            outcomes[j].conflicts.contains(p) && !path_ignored(rules, p);
        let k = choose|k: int| 0 <= k < outcomes[j].conflicts.len() && outcomes[j].conflicts[k]
            == p;
        assert(outcomes[j].conflicts.len() > 0);
        assert(!all_ignored(outcomes[j].conflicts, rules)) by {
            assert(!path_ignored(rules, outcomes[j].conflicts[k]));
        }
    }
    if j == 0 {
        assert(w.merged =~= pending.take(0));
    } else {
        assert(attempt_allowed(outcomes[0], rules));
        assert(outcomes.drop_first()[j - 1] == outcomes[j]);
        assert(forall|i: int| 0 <= i < j - 1 ==> attempt_allowed(
            #[trigger] outcomes.drop_first()[i],
            rules,
        ));
        lemma_veto_totality(pending.drop_first(), outcomes.drop_first(), rules, j - 1);
        let rest = walk_model(pending.drop_first(), outcomes.drop_first(), rules);
        assert(rest.failing == Some(pending.drop_first()[j - 1]));
        assert(pending.drop_first()[j - 1] == pending[j]);
        assert(w.merged =~= pending.take(j)) by {
            assert(rest.merged =~= pending.drop_first().take(j - 1));
        }
    }
}

/// A walk over an empty pending range — one started when the branch is
/// already caught up — merges nothing, ignores nothing, blocks on nothing and
/// skips nothing; running the walk again right after a completed walk is such
/// a walk.
pub proof fn lemma_noop_walk(outcomes: Seq<SpecAttempt>, rules: Seq<Seq<char>>)
    ensures
        walk_model(Seq::<Seq<char>>::empty(), outcomes, rules) == (SpecWalk {
            merged: Seq::<Seq<char>>::empty(),
            ignored: Seq::<Seq<char>>::empty(),
            failing: None::<Seq<char>>,
            skipped: 0,
        }),
{
}

} // verus!
