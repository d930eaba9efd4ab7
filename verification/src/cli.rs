//! The commands that a user can give.

use vstd::prelude::*;

verus! {

/// What the user asked for.
#[derive(Debug, Clone, PartialEq, Eq)]
pub enum CliOptions {
    /// Initialize the environment.
    Init,
    /// Update all toolchains; `force` builds them whether or not they are
    /// stale.
    Update { force: bool },
    /// Set the default channel.
    Default { channel: String },
    /// Show the current configuration.
    Show,
}

} // verus!
