use vstd::prelude::*;

verus! {

/// The error type of the version-control engine (declared so that values of it
/// can be carried and returned; the library never inspects it).
#[verifier::external_type_specification]
#[verifier::external_body]
pub struct ExGit2Error(git2::Error);

/// The error type of the glob-matching engine (declared so that values of it
/// can be carried and returned; the library never inspects it).
#[verifier::external_type_specification]
#[verifier::external_body]
pub struct ExGlobError(globset::Error);

/// Errors arising from the repository facade and the values it hands back.
#[derive(Debug)]
pub enum GitError {
    /// HEAD is a direct reference where a symbolic one was needed.
    HeadIsNotSymbolic,
    /// The named reference does not point directly at an object.
    NotDirect(String),
    /// A symbolic target had an unexpected shape.
    InvalidTarget,
    /// The named revision did not resolve to a commit.
    NotACommit(String),
    /// A conflict record carried no index entry on any side.
    NoIndexEntryForTheir,
    /// A path or message from the repository was not valid text.
    InvalidUtf8,
    /// The current user name could not be determined.
    UnableToGetCurrentUsername,
    /// The home directory could not be determined.
    UnableToGetHomeDir,
    /// A tracking branch name could not be split into remote and branch.
    UnableToGetRemoteAndBranch,
    /// An underlying engine call failed; the engine's error is carried through unchanged.
    Engine(git2::Error),
}

/// Errors of the incremental merge walk's entry points.
#[derive(Debug)]
pub enum TryMergeError {
    /// The working tree holds uncommitted changes; nothing was touched.
    NoCommittedChanges,
}

/// Errors of the branch-forking command.
#[derive(Debug)]
pub enum ForkError {
    /// The working tree holds uncommitted changes; nothing was touched.
    NoCommittedChanges,
}

} // verus!
