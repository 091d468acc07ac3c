//! Advances a local line of development toward a moving upstream target by
//! merging the intervening snapshots one at a time, oldest first, stopping at
//! the first merge whose conflicts are not confined to a configured allow-list
//! of paths; conflicts on allowed paths are resolved by taking the upstream
//! side. A companion squasher folds a contiguous run of the merge commits this
//! engine wrote into a single merge once the target is reached.

pub mod errors;
pub mod strutil;
pub mod messages;
pub mod ignore;
pub mod walk;
pub mod squash;
pub mod engine;
