//! The update of one repository, as a state machine.
//!
//! The machine never acts. Each step takes what the caller observed and
//! returns what the caller is to do next:
//!
//! ```text
//! Idle -> Locating -> Fetching -> CheckingOut -> Done(Skipped)
//!                                             -> Building -> Publishing -> WritingMarker -> Done(Updated)
//! ```
//!
//! Any failure, reported by the caller or found here, leads to `Failed`.
//! `Done` and `Failed` are final.

use vstd::prelude::*;
use crate::artifact::{entry_views, DirEntry, DirEntryView};
use crate::fault::Fault;
use crate::layout::{marker_file_of, release_dir_of, repo_dir_of, PathLayout};
use crate::publish::{link_views, Link, LinkView};
use crate::repo::{
    acquire_of,
    branch_available,
    build_plan_of,
    needs_build,
    resolve_branch_of,
    stale,
    sync_plan_of,
    Acquire,
    AcquireView,
    Repository,
    RepositoryView,
    SyncPlan,
    SyncPlanView,
};
use crate::text::texts;

verus! {

/// How the update of a repository ended when it did not fail.
#[derive(Clone, Copy, Debug, PartialEq, Eq, Structural)]
pub enum Outcome {
    /// The build was current: nothing was built, published or recorded.
    Skipped,
    /// The repository was built, its binaries were published and its
    /// marker records the commit that was built.
    Updated,
}

/// Where the update of a repository stands.
#[derive(Clone, Copy, Debug, PartialEq, Eq, Structural)]
pub enum Stage {
    /// Nothing has been asked for yet.
    Idle,
    /// Waiting to learn whether a working copy exists.
    Locating,
    /// Waiting for the names of the remote branches.
    Fetching,
    /// Waiting for the checked-out commit and the build marker.
    CheckingOut,
    /// Waiting for the build and the listing of its output.
    Building,
    /// Waiting for the links to be published.
    Publishing,
    /// Waiting for the marker to be written.
    WritingMarker,
    /// Finished.
    Done(Outcome),
    /// Given up.
    Failed(Fault),
}

/// What the caller reports.
#[derive(Debug, PartialEq, Eq)]
pub enum Event {
    /// The update is to begin.
    Start,
    /// Whether the repository has a working copy.
    Located { present: bool },
    /// The working copy is there and all remote refs were fetched; these
    /// are the names of the remote branches.
    Fetched { remotes: Vec<String> },
    /// The branch was merged and checked out; `head` is the hash of the
    /// commit now checked out, `marker` the text of the build marker, empty
    /// where there is none.
    CheckedOut { head: String, marker: String },
    /// The release build ended; `entries` lists its output directory.
    Built { succeeded: bool, entries: Vec<DirEntry> },
    /// Every link was published.
    Published,
    /// The marker was written.
    MarkerWritten,
    /// What was asked for could not be done.
    Failed(Fault),
}

/// The mathematical value of an [`Event`].
pub enum EventView {
    Start,
    Located { present: bool },
    Fetched { remotes: Seq<Seq<char>> },
    CheckedOut { head: Seq<char>, marker: Seq<char> },
    Built { succeeded: bool, entries: Seq<DirEntryView> },
    Published,
    MarkerWritten,
    Failed(Fault),
}

impl View for Event {
    type V = EventView;

    open spec fn view(&self) -> EventView {
        match self {
            Event::Start => EventView::Start,
            Event::Located { present } => EventView::Located { present: *present },
            Event::Fetched { remotes } => EventView::Fetched { remotes: texts(remotes@) },
            Event::CheckedOut { head, marker } => EventView::CheckedOut {
                head: head@,
                marker: marker@,
            },
            Event::Built { succeeded, entries } => EventView::Built {
                succeeded: *succeeded,
                entries: entry_views(entries@),
            },
            Event::Published => EventView::Published,
            Event::MarkerWritten => EventView::MarkerWritten,
            Event::Failed(fault) => EventView::Failed(*fault),
        }
    }
}

/// What the caller is to do next. Each request is answered by the event
/// named with it, or by `Event::Failed`.
#[derive(Debug, PartialEq, Eq)]
pub enum Action {
    /// Find out whether `dir` holds a working copy; answer `Located`.
    Locate { dir: String },
    /// Get hold of the working copy as `acquire` says, then fetch all
    /// remote refs without ever asking for credentials; answer `Fetched`.
    Fetch { acquire: Acquire },
    /// In the working copy `dir`, carry out `plan`; then read the hash of
    /// the checked-out commit and the text of `marker_path`, taking a
    /// missing file for an empty one; answer `CheckedOut`.
    Checkout { dir: String, plan: SyncPlan, marker_path: String },
    /// Run the release build in the working copy `dir`, then list the
    /// entries directly inside `release_dir`; answer `Built`.
    Build { dir: String, release_dir: String },
    /// Publish `links`, one after the other; answer `Published`.
    Publish { links: Vec<Link> },
    /// Write `text` to the file `path`; answer `MarkerWritten`.
    WriteMarker { path: String, text: String },
    /// Nothing more: the update is done or has failed.
    Stop,
}

/// The mathematical value of an [`Action`].
pub enum ActionView {
    Locate { dir: Seq<char> },
    Fetch { acquire: AcquireView },
    Checkout { dir: Seq<char>, plan: SyncPlanView, marker_path: Seq<char> },
    Build { dir: Seq<char>, release_dir: Seq<char> },
    Publish { links: Seq<LinkView> },
    WriteMarker { path: Seq<char>, text: Seq<char> },
    Stop,
}

impl View for Action {
    type V = ActionView;

    open spec fn view(&self) -> ActionView {
        match self {
            Action::Locate { dir } => ActionView::Locate { dir: dir@ },
            Action::Fetch { acquire } => ActionView::Fetch { acquire: acquire@ },
            Action::Checkout { dir, plan, marker_path } => ActionView::Checkout {
                dir: dir@,
                plan: plan@,
                marker_path: marker_path@,
            },
            Action::Build { dir, release_dir } => ActionView::Build {
                dir: dir@,
                release_dir: release_dir@,
            },
            Action::Publish { links } => ActionView::Publish { links: link_views(links@) },
            Action::WriteMarker { path, text } => ActionView::WriteMarker {
                path: path@,
                text: text@,
            },
            Action::Stop => ActionView::Stop,
        }
    }
}

/// The update of one repository: the repository, whether a build is
/// forced, the stage reached, and the commit found at checkout.
#[derive(Debug, PartialEq, Eq)]
pub struct RepoRun {
    repo: Repository,
    force: bool,
    stage: Stage,
    head: String,
}

/// The mathematical value of a [`RepoRun`].
pub struct RepoRunView {
    pub repo: RepositoryView,
    pub force: bool,
    pub stage: Stage,
    pub head: Seq<char>,
}

impl View for RepoRun {
    type V = RepoRunView;

    closed spec fn view(&self) -> RepoRunView {
        RepoRunView { repo: self.repo@, force: self.force, stage: self.stage, head: self.head@ }
    }
}

/// An update that has not begun.
pub open spec fn idle(repo: RepositoryView, force: bool) -> RepoRunView {
    RepoRunView { repo, force, stage: Stage::Idle, head: Seq::empty() }
}

/// The update has ended, one way or the other.
pub open spec fn finished(stage: Stage) -> bool {
    stage is Done || stage is Failed
}

/// The update, given up for `fault`.
pub open spec fn give_up(run: RepoRunView, fault: Fault) -> (RepoRunView, ActionView) {
    (RepoRunView { stage: Stage::Failed(fault), ..run }, ActionView::Stop)
}

/// One step of the update: the state after `event`, and what to do next.
///
/// A finished update stays as it is. A reported failure ends the update
/// with that failure, an event that the stage did not ask for ends it as
/// out of turn.
pub open spec fn next(root: Seq<char>, run: RepoRunView, event: EventView) -> (
    RepoRunView,
    ActionView,
) {
    if finished(run.stage) {
        (run, ActionView::Stop)
    } else {
        match (run.stage, event) {
            (_, EventView::Failed(fault)) => give_up(run, fault),
            (Stage::Idle, EventView::Start) => (
                RepoRunView { stage: Stage::Locating, ..run },
                ActionView::Locate { dir: repo_dir_of(root, run.repo.name) },
            ),
            (Stage::Locating, EventView::Located { present }) => (
                RepoRunView { stage: Stage::Fetching, ..run },
                ActionView::Fetch { acquire: acquire_of(root, run.repo, present) },
            ),
            (Stage::Fetching, EventView::Fetched { remotes }) => {
                let repo = RepositoryView {
                    branch: resolve_branch_of(run.repo.channel, remotes),
                    ..run.repo
                };
                if branch_available(run.repo.channel, remotes) {
                    (
                        RepoRunView { repo, stage: Stage::CheckingOut, ..run },
                        ActionView::Checkout {
                            dir: repo_dir_of(root, repo.name),
                            plan: sync_plan_of(repo.branch),
                            marker_path: marker_file_of(root, repo.name),
                        },
                    )
                } else {
                    give_up(RepoRunView { repo, ..run }, Fault::VersionControl)
                }
            },
            (Stage::CheckingOut, EventView::CheckedOut { head, marker }) => {
                if stale(marker, head, run.force) {
                    (
                        RepoRunView { stage: Stage::Building, head, ..run },
                        ActionView::Build {
                            dir: repo_dir_of(root, run.repo.name),
                            release_dir: release_dir_of(root, run.repo.name),
                        },
                    )
                } else {
                    (
                        RepoRunView { stage: Stage::Done(Outcome::Skipped), head, ..run },
                        ActionView::Stop,
                    )
                }
            },
            (Stage::Building, EventView::Built { succeeded, entries }) => {
                if succeeded {
                    (
                        RepoRunView { stage: Stage::Publishing, ..run },
                        ActionView::Publish {
                            links: build_plan_of(root, run.repo, entries, run.head).links,
                        },
                    )
                } else {
                    give_up(run, Fault::Build)
                }
            },
            (Stage::Publishing, EventView::Published) => (
                RepoRunView { stage: Stage::WritingMarker, ..run },
                ActionView::WriteMarker {
                    path: marker_file_of(root, run.repo.name),
                    text: run.head,
                },
            ),
            (Stage::WritingMarker, EventView::MarkerWritten) => (
                RepoRunView { stage: Stage::Done(Outcome::Updated), ..run },
                ActionView::Stop,
            ),
            _ => give_up(run, Fault::OutOfTurn),
        }
    }
}

impl RepoRun {
    /// The update of `repo` before it has begun; `force` asks for a build
    /// whether or not the build is stale.
    pub fn new(repo: Repository, force: bool) -> (run: RepoRun)
        ensures
            run@ == idle(repo@, force),
    {
        RepoRun { repo, force, stage: Stage::Idle, head: String::new() }
    }

    /// The stage reached.
    pub fn stage(&self) -> (stage: Stage)
        ensures
            stage == self@.stage,
    {
        self.stage
    }

    /// The repository that is updated.
    pub fn repo(&self) -> (repo: &Repository)
        ensures
            repo@ == self@.repo,
    {
        &self.repo
    }

    /// The hash of the commit found at checkout; empty before.
    pub fn head(&self) -> (head: &str)
        ensures
            head@ == self@.head,
    {
        self.head.as_str()
    }

    /// Whether the update has ended.
    pub fn is_finished(&self) -> (over: bool)
        ensures
            over == finished(self@.stage),
    {
        match self.stage {
            Stage::Done(_) => true,
            Stage::Failed(_) => true,
            _ => false,
        }
    }
}

/// The update, given up for `fault`.
fn abandon(run: RepoRun, fault: Fault) -> (out: (RepoRun, Action))
    ensures
        (out.0@, out.1@) == give_up(run@, fault),
{
    (RepoRun { stage: Stage::Failed(fault), ..run }, Action::Stop)
}

/// Takes the update of one repository one step further: `event` is what
/// the caller observed, the result is the update after it and what the
/// caller is to do next.
///
/// Nothing is built unless the checked-out commit differs from the one
/// recorded in the marker, or the build is forced; nothing is published
/// unless the build succeeded; and the marker is written last, with the
/// commit that was found at checkout.
pub fn update_repo(layout: &PathLayout, run: RepoRun, event: Event) -> (out: (RepoRun, Action))
    ensures
        (out.0@, out.1@) == next(layout@, run@, event@),
{
    if run.is_finished() {
        return (run, Action::Stop);
    }
    match event {
        Event::Failed(fault) => abandon(run, fault),
        Event::Start => match run.stage {
            Stage::Idle => {
                let dir = layout.repo_dir(run.repo.name());
                (RepoRun { stage: Stage::Locating, ..run }, Action::Locate { dir })
            },
            _ => abandon(run, Fault::OutOfTurn),
        },
        Event::Located { present } => match run.stage {
            Stage::Locating => {
                let acquire = run.repo.acquire(layout, present);
                (RepoRun { stage: Stage::Fetching, ..run }, Action::Fetch { acquire })
            },
            _ => abandon(run, Fault::OutOfTurn),
        },
        Event::Fetched { remotes } => match run.stage {
            Stage::Fetching => {
                let mut run = run;
                match run.repo.sync_repo(&remotes) {
                    Ok(plan) => {
                        let dir = layout.repo_dir(run.repo.name());
                        let marker_path = layout.marker_file(run.repo.name());
                        (
                            RepoRun { stage: Stage::CheckingOut, ..run },
                            Action::Checkout { dir, plan, marker_path },
                        )
                    },
                    Err(fault) => abandon(run, fault),
                }
            },
            _ => abandon(run, Fault::OutOfTurn),
        },
        Event::CheckedOut { head, marker } => match run.stage {
            Stage::CheckingOut => {
                if needs_build(marker.as_str(), head.as_str(), run.force) {
                    let dir = layout.repo_dir(run.repo.name());
                    let release_dir = layout.release_dir(run.repo.name());
                    (
                        RepoRun { stage: Stage::Building, head, ..run },
                        Action::Build { dir, release_dir },
                    )
                } else {
                    (RepoRun { stage: Stage::Done(Outcome::Skipped), head, ..run }, Action::Stop)
                }
            },
            _ => abandon(run, Fault::OutOfTurn),
        },
        Event::Built { succeeded, entries } => match run.stage {
            Stage::Building => {
                if succeeded {
                    let plan = run.repo.build(layout, &entries, run.head.as_str());
                    (RepoRun { stage: Stage::Publishing, ..run }, Action::Publish {
                        links: plan.links,
                    })
                } else {
                    abandon(run, Fault::Build)
                }
            },
            _ => abandon(run, Fault::OutOfTurn),
        },
        Event::Published => match run.stage {
            Stage::Publishing => {
                let path = layout.marker_file(run.repo.name());
                let text = run.head.clone();
                (RepoRun { stage: Stage::WritingMarker, ..run }, Action::WriteMarker { path, text })
            },
            _ => abandon(run, Fault::OutOfTurn),
        },
        Event::MarkerWritten => match run.stage {
            Stage::WritingMarker => (
                RepoRun { stage: Stage::Done(Outcome::Updated), ..run },
                Action::Stop,
            ),
            _ => abandon(run, Fault::OutOfTurn),
        },
    }
}

/// Whatever the caller reports, in whatever order: a build is asked for
/// only at checkout and only where it is due; links are published only
/// after a build that succeeded; and the marker is written only after the
/// links were published, with the commit that was found at checkout.
pub proof fn marker_is_written_last(root: Seq<char>, run: RepoRunView, event: EventView)
    ensures
        next(root, run, event).1 is Build ==> run.stage == Stage::CheckingOut && (
        event matches EventView::CheckedOut { head, marker } && stale(marker, head, run.force)),
        next(root, run, event).1 is Publish ==> run.stage == Stage::Building && (
        event matches EventView::Built { succeeded, entries } && succeeded),
        next(root, run, event).1 matches ActionView::WriteMarker { path, text } ==> run.stage
            == Stage::Publishing && event is Published && text == run.head && path
            == marker_file_of(root, run.repo.name),
        next(root, run, event).0.stage == Stage::Done(Outcome::Updated) ==> run.stage
            == Stage::WritingMarker || run.stage == Stage::Done(Outcome::Updated),
{
}

/// A step never changes which repository is updated, on which channel, or
/// whether the build is forced; and once the commit has been found at
/// checkout, it stays the commit of the update.
pub proof fn update_keeps_its_subject(root: Seq<char>, run: RepoRunView, event: EventView)
    ensures
        next(root, run, event).0.repo.name == run.repo.name,
        next(root, run, event).0.repo.channel == run.repo.channel,
        next(root, run, event).0.repo.glob == run.repo.glob,
        next(root, run, event).0.force == run.force,
        run.stage != Stage::CheckingOut ==> next(root, run, event).0.head == run.head,
{
}

} // verus!
