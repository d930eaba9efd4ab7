//! The commands, each as the list of steps that carries it out.
//!
//! A step names what the caller is to do; the caller does the steps in
//! order and stops at the first that fails. Steps that speak of the active
//! channel mean the channel of the configuration that was last stored or
//! loaded.

use vstd::prelude::*;
use crate::config::{Config, ConfigView};

pub mod default;
pub mod init;
pub mod show;
pub mod update;

verus! {

/// One step of a command.
#[derive(Debug, PartialEq, Eq)]
pub enum Step {
    /// Make the directories below the install root: for the stable links,
    /// for the working copies and for the channels' link directories.
    CreateLayout,
    /// Persist this configuration.
    StoreConfig(Config),
    /// Write the shell snippet that puts the stable links on the search
    /// path.
    WriteEnv,
    /// Load the persisted configuration.
    LoadConfig,
    /// Make the link directory of the active channel.
    PrepareChannel,
    /// Update every managed repository on the active channel.
    UpdateAll { force: bool },
    /// Publish the stable links, so that they lead to the active channel.
    Activate,
    /// Show the install root, the active channel and the version of each
    /// managed repository.
    Summarize,
    /// Tell the user how to load the shell snippet.
    Announce,
}

/// The mathematical value of a [`Step`].
pub enum StepView {
    CreateLayout,
    StoreConfig(ConfigView),
    WriteEnv,
    LoadConfig,
    PrepareChannel,
    UpdateAll { force: bool },
    Activate,
    Summarize,
    Announce,
}

impl View for Step {
    type V = StepView;

    open spec fn view(&self) -> StepView {
        match self {
            Step::CreateLayout => StepView::CreateLayout,
            Step::StoreConfig(config) => StepView::StoreConfig(config@),
            Step::WriteEnv => StepView::WriteEnv,
            Step::LoadConfig => StepView::LoadConfig,
            Step::PrepareChannel => StepView::PrepareChannel,
            Step::UpdateAll { force } => StepView::UpdateAll { force: *force },
            Step::Activate => StepView::Activate,
            Step::Summarize => StepView::Summarize,
            Step::Announce => StepView::Announce,
        }
    }
}

/// The views of a list of steps.
pub open spec fn step_views(steps: Seq<Step>) -> Seq<StepView> {
    steps.map_values(|step: Step| step@)
}

/// Updating: load the configuration, make sure that the active channel has
/// a link directory, update every repository.
pub open spec fn update_steps(force: bool) -> Seq<StepView> {
    seq![StepView::LoadConfig, StepView::PrepareChannel, StepView::UpdateAll { force }]
}

/// Setting the default channel: persist it, update every repository on it,
/// then let the stable links lead to it.
pub open spec fn default_steps(channel: Seq<char>) -> Seq<StepView> {
    seq![
        StepView::LoadConfig,
        StepView::StoreConfig(ConfigView { channel }),
        StepView::PrepareChannel,
        StepView::UpdateAll { force: false },
        StepView::Activate,
    ]
}

/// Showing: load the configuration, show the summary.
pub open spec fn show_steps() -> Seq<StepView> {
    seq![StepView::LoadConfig, StepView::Summarize]
}

/// Initializing: lay out the install root with the configuration of a
/// fresh install and the shell snippet, update, make `develop` the default
/// channel, and tell the user what is left to do.
pub open spec fn init_steps() -> Seq<StepView> {
    seq![
        StepView::CreateLayout,
        StepView::StoreConfig(ConfigView { channel: "develop"@ }),
        StepView::WriteEnv,
    ] + update_steps(false) + default_steps("develop"@) + seq![StepView::Announce]
}

/// A command: something that is carried out step by step.
pub trait Command: Sized {
    /// The steps of the command, in order.
    spec fn steps(self) -> Seq<StepView>;

    /// Lays the command out as steps for the caller to carry out.
    fn run(self) -> (plan: Vec<Step>)
        ensures
            step_views(plan@) == self.steps(),
    ;
}

} // verus!
