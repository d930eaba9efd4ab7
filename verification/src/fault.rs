//! Why a step of the pipeline failed.

use vstd::prelude::*;

verus! {

/// The kinds of failure. Every one ends the work on the repository at
/// hand; nothing is retried and nothing that was done is undone.
#[derive(Clone, Copy, Debug, PartialEq, Eq, Structural)]
pub enum Fault {
    /// A value of the environment or of the configuration is absent.
    Environment,
    /// Cloning, fetching, merging, checking out or looking up a branch
    /// failed; also: neither the channel nor the fallback branch exists
    /// upstream.
    VersionControl,
    /// The release build failed.
    Build,
    /// A directory, file or link could not be made.
    Filesystem,
    /// The persisted configuration is malformed.
    Configuration,
    /// The caller reported something that the pipeline had not asked for.
    OutOfTurn,
}

} // verus!
