use vstd::prelude::*;
use crate::strutil::str_starts_with;

verus! {

/// The prefix that identifies a commit message written by this engine's walk.
pub open spec fn marker_prefix() -> Seq<char> {
    "Merge commit"@
}

/// A message carries the engine's marker exactly when it begins with the
/// marker prefix.
pub open spec fn is_marker_text(msg: Seq<char>) -> bool {
    marker_prefix().is_prefix_of(msg)
}

/// The message recorded for one automatically merged revision.
pub open spec fn merge_message_text(rev: Seq<char>) -> Seq<char> {
    "Merge commit "@ + rev + " (no conflict)\n\n"@
}

/// The message used when a blocking revision is handed off for manual
/// resolution.
pub open spec fn conflict_message_text(rev: Seq<char>) -> Seq<char> {
    "Merge commit "@ + rev + " (conflicts)\n\n"@
}

/// The message of the single commit that replaces a squashed run.
pub open spec fn squash_message_text(target: Seq<char>) -> Seq<char> {
    "Merge branch "@ + target
}

pub fn merge_message(rev: &str) -> (r: String)
    ensures
        r@ == merge_message_text(rev@),
{
    let mut s = String::from_str("Merge commit ");
    s.append(rev);
    s.append(" (no conflict)\n\n");
    s
}

pub fn conflict_message(rev: &str) -> (r: String)
    ensures
        r@ == conflict_message_text(rev@),
{
    let mut s = String::from_str("Merge commit ");
    s.append(rev);
    s.append(" (conflicts)\n\n");
    s
}

pub fn squash_message(target: &str) -> (r: String)
    ensures
        r@ == squash_message_text(target@),
{
    let mut s = String::from_str("Merge branch ");
    s.append(target);
    s
}

pub fn is_marker_message(msg: &str) -> (r: bool)
    ensures
        r == is_marker_text(msg@),
{
    str_starts_with(msg, "Merge commit")
}

/// Every message the walk writes for a merged revision carries the marker, so
/// a later squash recognises the commit as this engine's own.
pub proof fn lemma_merge_message_is_marker(rev: Seq<char>)
    ensures
        is_marker_text(merge_message_text(rev)),
{
    reveal_strlit("Merge commit");
    reveal_strlit("Merge commit ");
    assert(marker_prefix() =~= merge_message_text(rev).subrange(0, 12));
}

/// The hand-off message for a blocking revision carries the marker as well.
pub proof fn lemma_conflict_message_is_marker(rev: Seq<char>)
    ensures
        is_marker_text(conflict_message_text(rev)),
{
    reveal_strlit("Merge commit");
    reveal_strlit("Merge commit ");
    assert(marker_prefix() =~= conflict_message_text(rev).subrange(0, 12));
}

/// The squash result's message does not carry the marker: a later squash never
/// folds an earlier squash result, and user-authored merges are never folded.
pub proof fn lemma_squash_message_not_marker(target: Seq<char>)
    ensures
        !is_marker_text(squash_message_text(target)),
{
    reveal_strlit("Merge commit");
    reveal_strlit("Merge branch ");
    if is_marker_text(squash_message_text(target)) {
        assert(squash_message_text(target)[6] == marker_prefix()[6]);
    }
}

} // verus!
