//! The command that shows the current configuration.

use vstd::prelude::*;
use crate::cli::CliOptions;
use crate::command::{show_steps, step_views, Command, Step, StepView};
use crate::config::Config;
use crate::fault::Fault;
use crate::repo::{version_of, Repository};

verus! {

/// Show the install root, the active channel and the repositories'
/// versions.
#[derive(Debug, Clone, Copy)]
pub struct Show;

impl Show {
    /// The command that `cmd` asks for.
    pub fn from(cmd: CliOptions) -> (show: Show)
        requires
            cmd is Show,
    {
        Show
    }
}

impl Command for Show {
    open spec fn steps(self) -> Seq<StepView> {
        show_steps()
    }

    fn run(self) -> (plan: Vec<Step>) {
        let mut plan: Vec<Step> = Vec::new();
        plan.push(Step::LoadConfig);
        plan.push(Step::Summarize);
        assert(step_views(plan@) =~= show_steps());
        plan
    }
}

/// The version shown for the repository `repo_name` on the configured
/// channel, whose checked-out commit was made `head_seconds` after the Unix
/// epoch.
pub fn repo_version(config: &Config, repo_name: &str, head_seconds: i64) -> (version: Result<
    String,
    Fault,
>)
    ensures
        match version_of(head_seconds) {
            Some(t) => version is Ok && version->Ok_0@ == t,
            None => version == Err::<String, Fault>(Fault::VersionControl),
        },
{
    Repository::new(config.channel.as_str(), repo_name).version(head_seconds)
}

} // verus!
