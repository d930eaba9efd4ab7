//! The command that sets the default channel.

use vstd::prelude::*;
use crate::cli::CliOptions;
use crate::command::{default_steps, step_views, Command, Step, StepView};
use crate::config::Config;

verus! {

/// Make `channel` the active channel.
#[derive(Debug, Clone)]
pub struct Default {
    pub channel: String,
}

impl Default {
    /// The command that `cmd` asks for.
    pub fn from(cmd: CliOptions) -> (default: Default)
        requires
            cmd is Default,
        ensures
            default.channel@ == cmd->channel@,
    {
        match cmd {
            CliOptions::Default { channel } => Default { channel },
            _ => unreached(),
        }
    }
}

impl Command for Default {
    open spec fn steps(self) -> Seq<StepView> {
        default_steps(self.channel@)
    }

    fn run(self) -> (plan: Vec<Step>) {
        let mut plan: Vec<Step> = Vec::new();
        plan.push(Step::LoadConfig);
        plan.push(Step::StoreConfig(Config { channel: self.channel }));
        plan.push(Step::PrepareChannel);
        plan.push(Step::UpdateAll { force: false });
        plan.push(Step::Activate);
        assert(step_views(plan@) =~= default_steps(self.channel@));
        plan
    }
}

} // verus!
