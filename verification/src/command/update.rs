//! The command that updates all toolchains.

use vstd::prelude::*;
use crate::cli::CliOptions;
use crate::command::{step_views, update_steps, Command, Step, StepView};

verus! {

/// Update every managed repository on the active channel.
#[derive(Debug, Clone, Copy)]
pub struct Update {
    pub force: bool,
}

impl Update {
    /// The command that `cmd` asks for.
    pub fn from(cmd: CliOptions) -> (update: Update)
        requires
            cmd is Update,
        ensures
            update.force == cmd->force,
    {
        match cmd {
            CliOptions::Update { force } => Update { force },
            _ => unreached(),
        }
    }
}

impl Command for Update {
    open spec fn steps(self) -> Seq<StepView> {
        update_steps(self.force)
    }

    fn run(self) -> (plan: Vec<Step>) {
        let mut plan: Vec<Step> = Vec::new();
        plan.push(Step::LoadConfig);
        plan.push(Step::PrepareChannel);
        plan.push(Step::UpdateAll { force: self.force });
        assert(step_views(plan@) =~= update_steps(self.force));
        plan
    }
}

} // verus!
