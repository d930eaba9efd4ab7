//! The command that initializes the environment.

use vstd::prelude::*;
use crate::cli::CliOptions;
use crate::command::update::Update;
use crate::command::{init_steps, step_views, Command, Step, StepView};
use crate::config::{Config, ConfigView};

verus! {

/// Lay out the install root and bring every toolchain in.
#[derive(Debug, Clone, Copy)]
pub struct Init;

impl Init {
    /// The command that `cmd` asks for.
    pub fn from(cmd: CliOptions) -> (init: Init)
        requires
            cmd is Init,
    {
        Init
    }
}

impl Command for Init {
    open spec fn steps(self) -> Seq<StepView> {
        init_steps()
    }

    fn run(self) -> (plan: Vec<Step>) {
        let mut plan: Vec<Step> = Vec::new();
        plan.push(Step::CreateLayout);
        plan.push(Step::StoreConfig(Config::initial()));
        plan.push(Step::WriteEnv);
        let ghost laid_out = plan@;
        let mut update = Update { force: false }.run();
        let ghost updating = update@;
        plan.append(&mut update);
        let mut default = crate::command::default::Default { channel: "develop".to_owned() }.run();
        let ghost defaulting = default@;
        plan.append(&mut default);
        plan.push(Step::Announce);
        assert(plan@ =~= laid_out + updating + defaulting + seq![Step::Announce]);
        assert(step_views(plan@) =~= step_views(laid_out) + step_views(updating) + step_views(
            defaulting,
        ) + seq![StepView::Announce]);
        assert(step_views(laid_out) =~= seq![
            StepView::CreateLayout,
            StepView::StoreConfig(ConfigView { channel: "develop"@ }),
            StepView::WriteEnv,
        ]);
        plan
    }
}

} // verus!
