//! The update of all managed repositories, one after the other.
//!
//! The repositories are independent of each other. They are updated in the
//! order in which they are declared, and the failure of one does not keep
//! the next from being updated: the stages in which they ended are kept,
//! and the whole has succeeded where none has failed.

use vstd::prelude::*;
use crate::layout::PathLayout;
use crate::pipeline::{
    finished,
    idle,
    next,
    update_repo,
    Action,
    ActionView,
    Event,
    EventView,
    RepoRun,
    RepoRunView,
    Stage,
};
use crate::repo::{Repository, RepositoryView};
use crate::text::texts;

verus! {

/// The names of the managed repositories, in the order of their update.
pub open spec fn managed_names() -> Seq<Seq<char>> {
    seq![
        "penv-manager"@,
        "compiler"@,
        "linker"@,
        "assembler"@,
        "emulator"@,
        "builder"@,
    ]
}

/// The repository `name` as wanted on `channel`, before it is synchronised.
pub open spec fn repository_of(channel: Seq<char>, name: Seq<char>) -> RepositoryView {
    RepositoryView { channel, name, glob: "sb_"@, branch: channel }
}

/// The names of the managed repositories, in the order of their update.
pub fn managed_repositories() -> (names: Vec<String>)
    ensures
        texts(names@) == managed_names(),
{
    let mut names: Vec<String> = Vec::new();
    names.push("penv-manager".to_owned());
    names.push("compiler".to_owned());
    names.push("linker".to_owned());
    names.push("assembler".to_owned());
    names.push("emulator".to_owned());
    names.push("builder".to_owned());
    assert(texts(names@) =~= managed_names());
    names
}

/// The update of a list of repositories on one channel: the repositories,
/// the stages in which those that are through have ended, and the update
/// under way, if any.
#[derive(Debug)]
pub struct Orchestrator {
    channel: String,
    force: bool,
    names: Vec<String>,
    stages: Vec<Stage>,
    current: Option<RepoRun>,
}

/// The mathematical value of an [`Orchestrator`].
pub struct OrchestratorView {
    pub channel: Seq<char>,
    pub force: bool,
    pub names: Seq<Seq<char>>,
    pub stages: Seq<Stage>,
    pub current: Option<RepoRunView>,
}

impl View for Orchestrator {
    type V = OrchestratorView;

    closed spec fn view(&self) -> OrchestratorView {
        OrchestratorView {
            channel: self.channel@,
            force: self.force,
            names: texts(self.names@),
            stages: self.stages@,
            current: match self.current {
                Some(run) => Some(run@),
                None => None,
            },
        }
    }
}

/// Nothing has been updated yet and nothing is under way.
pub open spec fn at_rest(channel: Seq<char>, force: bool, names: Seq<Seq<char>>) -> OrchestratorView {
    OrchestratorView { channel, force, names, stages: Seq::empty(), current: None }
}

/// Begins the update of the first repository that has not been updated
/// yet; where none is left, there is nothing more to do.
pub open spec fn begin_next(root: Seq<char>, all: OrchestratorView) -> (
    OrchestratorView,
    ActionView,
) {
    if all.stages.len() < all.names.len() {
        let repo = repository_of(all.channel, all.names[all.stages.len() as int]);
        let begun = next(root, idle(repo, all.force), EventView::Start);
        (OrchestratorView { current: Some(begun.0), ..all }, begun.1)
    } else {
        (OrchestratorView { current: None, ..all }, ActionView::Stop)
    }
}

/// One step of the whole: the update under way takes `event`; where that
/// ends it, its stage is kept and the next repository's update begins.
pub open spec fn advance(root: Seq<char>, all: OrchestratorView, event: EventView) -> (
    OrchestratorView,
    ActionView,
) {
    match all.current {
        None => (all, ActionView::Stop),
        Some(run) => {
            let stepped = next(root, run, event);
            if finished(stepped.0.stage) {
                begin_next(
                    root,
                    OrchestratorView {
                        stages: all.stages.push(stepped.0.stage),
                        current: None,
                        ..all
                    },
                )
            } else {
                (OrchestratorView { current: Some(stepped.0), ..all }, stepped.1)
            }
        },
    }
}

/// Every repository is through and none has failed.
pub open spec fn all_done(all: OrchestratorView) -> bool {
    &&& all.current is None
    &&& all.stages.len() == all.names.len()
    &&& forall|i: int| 0 <= i < all.stages.len() ==> all.stages[i] is Done
}

impl Orchestrator {
    /// Begins the update of the managed repositories on `channel`; `force`
    /// asks for a build of each whether or not its build is stale.
    pub fn start(layout: &PathLayout, channel: &str, force: bool) -> (out: (Orchestrator, Action))
        ensures
            (out.0@, out.1@) == begin_next(layout@, at_rest(channel@, force, managed_names())),
    {
        Orchestrator::start_with(layout, channel, force, managed_repositories())
    }

    /// Begins the update of the repositories `names` on `channel`.
    pub fn start_with(layout: &PathLayout, channel: &str, force: bool, names: Vec<String>) -> (out:
        (Orchestrator, Action))
        ensures
            (out.0@, out.1@) == begin_next(layout@, at_rest(channel@, force, texts(names@))),
    {
        let all = Orchestrator {
            channel: channel.to_owned(),
            force,
            names,
            stages: Vec::new(),
            current: None,
        };
        all.begin(layout)
    }

    /// Begins the update of the first repository that has not been updated
    /// yet.
    fn begin(self, layout: &PathLayout) -> (out: (Orchestrator, Action))
        ensures
            (out.0@, out.1@) == begin_next(layout@, self@),
    {
        if self.stages.len() < self.names.len() {
            let name = self.names[self.stages.len()].as_str();
            let repo = Repository::new(self.channel.as_str(), name);
            let begun = update_repo(layout, RepoRun::new(repo, self.force), Event::Start);
            (Orchestrator { current: Some(begun.0), ..self }, begun.1)
        } else {
            (Orchestrator { current: None, ..self }, Action::Stop)
        }
    }

    /// Takes the whole one step further: `event` is what the caller
    /// observed, the result is what the caller is to do next. `Stop` comes
    /// only when every repository is through.
    pub fn step(self, layout: &PathLayout, event: Event) -> (out: (Orchestrator, Action))
        ensures
            (out.0@, out.1@) == advance(layout@, self@, event@),
    {
        let Orchestrator { channel, force, names, stages, current } = self;
        match current {
            None => (Orchestrator { channel, force, names, stages, current: None }, Action::Stop),
            Some(run) => {
                let stepped = update_repo(layout, run, event);
                if stepped.0.is_finished() {
                    let mut stages = stages;
                    stages.push(stepped.0.stage());
                    let all = Orchestrator { channel, force, names, stages, current: None };
                    all.begin(layout)
                } else {
                    (
                        Orchestrator { channel, force, names, stages, current: Some(stepped.0) },
                        stepped.1,
                    )
                }
            },
        }
    }

    /// The stages in which the repositories that are through have ended,
    /// in the order of the repositories.
    pub fn stages(&self) -> (stages: &Vec<Stage>)
        ensures
            stages@ == self@.stages,
    {
        &self.stages
    }

    /// The names of the repositories, in the order of their update.
    pub fn names(&self) -> (names: &Vec<String>)
        ensures
            texts(names@) == self@.names,
    {
        &self.names
    }

    /// The update under way, if any.
    pub fn current(&self) -> (run: &Option<RepoRun>)
        ensures
            match *run {
                Some(r) => self@.current == Some(r@),
                None => self@.current is None,
            },
    {
        &self.current
    }

    /// Whether every repository is through and none has failed.
    pub fn succeeded(&self) -> (ok: bool)
        ensures
            ok == all_done(self@),
    {
        if self.current.is_some() || self.stages.len() != self.names.len() {
            return false;
        }
        let mut i: usize = 0;
        while i < self.stages.len()
            invariant
                i <= self.stages.len(),
                forall|j: int| 0 <= j < i ==> self.stages[j] is Done,
            decreases self.stages.len() - i,
        {
            match self.stages[i] {
                Stage::Done(_) => {},
                _ => {
                    return false;
                },
            }
            i += 1;
        }
        true
    }
}

} // verus!
