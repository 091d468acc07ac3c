use vstd::prelude::*;
use crate::messages::{is_marker_text, is_marker_message};

verus! {

/// One commit of HEAD's first-parent ancestry, as the squasher reads it: its
/// identifier, its message (empty when the repository held no valid text), and
/// its first parent's identifier when it has one.
pub struct AncestorInfo {
    pub id: String,
    pub message: String,
    pub first_parent: Option<String>,
}

/// Spec counterpart of `AncestorInfo`.
pub ghost struct SpecAncestor {
    pub id: Seq<char>,
    pub message: Seq<char>,
    pub first_parent: Option<Seq<char>>,
}

impl View for AncestorInfo {
    type V = SpecAncestor;

    open spec fn view(&self) -> SpecAncestor {
        SpecAncestor {
            id: self.id@,
            message: self.message@,
            first_parent: match self.first_parent {
                Option::Some(p) => Option::Some(p@),
                Option::None => Option::None,
            },
        }
    }
}

/// The length of the maximal prefix of the ancestry whose messages carry this
/// engine's marker: the run of commits a squash may fold.
pub open spec fn marker_run(anc: Seq<SpecAncestor>) -> nat
    decreases anc.len(),
{
    if anc.len() == 0 || !is_marker_text(anc[0].message) {
        0
    } else {
        1 + marker_run(anc.drop_first())
    }
}

/// A left-to-right scan that stops at the first non-marker message computes
/// exactly `marker_run`.
proof fn lemma_marker_run_scan(anc: Seq<SpecAncestor>, i: int)
    requires
        0 <= i <= anc.len(),
        forall|k: int| 0 <= k < i ==> is_marker_text(#[trigger] anc[k].message),
        i < anc.len() ==> !is_marker_text(anc[i].message),
    ensures
        marker_run(anc) == i,
    decreases i,
{
    if i == 0 {
    } else {
        assert(is_marker_text(anc[0].message));
        assert(forall|k: int| 0 <= k < i - 1 ==> is_marker_text(
            #[trigger] anc.drop_first()[k].message,
        ));
        assert(i - 1 < anc.drop_first().len() ==> anc.drop_first()[i - 1] == anc[i]);
        lemma_marker_run_scan(anc.drop_first(), i - 1);
    }
}

/// What a squash will do: fold the `folded` leading marker commits, writing
/// one commit on top of `base`, the ancestor immediately preceding the run.
pub struct SquashPlan {
    pub base: String,
    pub folded: usize,
}

/// Decides whether HEAD's ancestry allows a squash, and of what: a plan exists
/// exactly when the maximal leading run of marker commits has at least two
/// commits — a single marker commit has nothing to squash — and the last
/// commit of the run has a first parent; that parent is the base the squash
/// commit is written on, and exactly the run is folded.
pub fn plan_squash(ancestry: &Vec<AncestorInfo>) -> (r: Option<SquashPlan>)
    ensures
        ({
            let av = ancestry@.map_values(|a: AncestorInfo| a@);
            let n = marker_run(av);
            &&& (r is Some <==> 2 <= n && av[n - 1].first_parent is Some)
            &&& (r matches Some(plan) ==> plan.folded == n && av[n - 1].first_parent == Some(
                plan.base@,
            ))
        }),
{
    let ghost av = ancestry@.map_values(|a: AncestorInfo| a@);
    let len = ancestry.len();
    let mut i: usize = 0;
    while i < len
        invariant
            0 <= i <= len,
            len == ancestry@.len(),
            av == ancestry@.map_values(|a: AncestorInfo| a@),
            forall|k: int| 0 <= k < i ==> is_marker_text(#[trigger] av[k].message),
        ensures
            i <= len,
            forall|k: int| 0 <= k < i ==> is_marker_text(#[trigger] av[k].message),
            i < len ==> !is_marker_text(av[i as int].message),
        decreases len - i,
    {
        if !is_marker_message(ancestry[i].message.as_str()) {
            proof {
                assert(av[i as int] == ancestry@[i as int]@);
            }
            break;
        }
        proof {
            assert(av[i as int] == ancestry@[i as int]@);
        }
        i += 1;
    }
    proof {
        lemma_marker_run_scan(av, i as int);
    }
    if i < 2 {
        return None;
    }
    match &ancestry[i - 1].first_parent {
        Option::Some(base) => {
            proof {
                assert(av[i - 1] == ancestry@[i - 1]@);
            }
            Some(SquashPlan { base: base.clone(), folded: i })
        },
        Option::None => {
            proof {
                assert(av[i - 1] == ancestry@[i - 1]@);
            }
            None
        },
    }
}

} // verus!
