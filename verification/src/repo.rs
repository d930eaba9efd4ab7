//! One managed repository on one channel: which branch it follows, whether
//! its build is stale, and what a build publishes.
//!
//! The working copy itself is the caller's: it reports the remote branches,
//! the checked-out commit, the build marker and the release directory's
//! listing, and carries out what is planned here.

use vstd::prelude::*;
use crate::artifact::{artifacts_of, entry_views, select_artifacts, DirEntry, DirEntryView};
use crate::clock::{format_timestamp, local_time_text};
use crate::fault::Fault;
use crate::layout::{
    marker_file_of,
    release_dir_of,
    remote_url,
    remote_url_of,
    repo_dir_of,
    PathLayout,
};
use crate::publish::{channel_links, channel_links_of, link_views, Link, LinkView};
use crate::text::{join2, same_text, texts};

verus! {

/// Seconds east of UTC at which commit times are shown.
pub const VERSION_OFFSET: i32 = 32400;

/// The name under which the remote holds `branch`.
pub open spec fn remote_ref_of(branch: Seq<char>) -> Seq<char> {
    "origin/"@ + branch
}

/// The branch that a repository follows on `channel`: the channel itself
/// where the remote has a branch of that name, and `master` where not.
pub open spec fn resolve_branch_of(channel: Seq<char>, remotes: Seq<Seq<char>>) -> Seq<char> {
    if remotes.contains(remote_ref_of(channel)) {
        channel
    } else {
        "master"@
    }
}

/// The remote holds the branch that `resolve_branch_of` settles on.
pub open spec fn branch_available(channel: Seq<char>, remotes: Seq<Seq<char>>) -> bool {
    remotes.contains(remote_ref_of(resolve_branch_of(channel, remotes)))
}

/// A build is due: the marker differs from the checked-out commit, or the
/// build is forced. A missing marker reads as the empty string.
pub open spec fn stale(marker: Seq<char>, head: Seq<char>, force: bool) -> bool {
    force || marker != head
}

/// The text shown for a commit made `head_seconds` after the Unix epoch.
pub open spec fn version_of(head_seconds: i64) -> Option<Seq<char>> {
    local_time_text(head_seconds, VERSION_OFFSET, "%Y-%m-%d %H:%M:%S"@)
}

/// A repository's name, its binary prefix, the channel it is wanted on and
/// the branch it follows there.
#[derive(Debug, PartialEq, Eq)]
pub struct Repository {
    channel: String,
    name: String,
    glob: String,
    git_branch: String,
}

/// The mathematical value of a [`Repository`].
pub struct RepositoryView {
    pub channel: Seq<char>,
    pub name: Seq<char>,
    pub glob: Seq<char>,
    pub branch: Seq<char>,
}

impl View for Repository {
    type V = RepositoryView;

    closed spec fn view(&self) -> RepositoryView {
        RepositoryView {
            channel: self.channel@,
            name: self.name@,
            glob: self.glob@,
            branch: self.git_branch@,
        }
    }
}

/// How to get hold of the working copy.
#[derive(Debug, PartialEq, Eq)]
pub enum Acquire {
    /// No working copy yet: clone `url` into `dir`.
    Clone { url: String, dir: String },
    /// Open the working copy in `dir` as it is.
    Open { dir: String },
}

/// The mathematical value of an [`Acquire`].
pub enum AcquireView {
    Clone { url: Seq<char>, dir: Seq<char> },
    Open { dir: Seq<char> },
}

impl View for Acquire {
    type V = AcquireView;

    open spec fn view(&self) -> AcquireView {
        match self {
            Acquire::Clone { url, dir } => AcquireView::Clone { url: url@, dir: dir@ },
            Acquire::Open { dir } => AcquireView::Open { dir: dir@ },
        }
    }
}

/// What to do to the working copy once the branch is settled: merge
/// `remote_ref` into the local branch `branch`, then check `branch` out.
#[derive(Debug, PartialEq, Eq)]
pub struct SyncPlan {
    pub remote_ref: String,
    pub branch: String,
}

/// The mathematical value of a [`SyncPlan`].
pub struct SyncPlanView {
    pub remote_ref: Seq<char>,
    pub branch: Seq<char>,
}

impl View for SyncPlan {
    type V = SyncPlanView;

    open spec fn view(&self) -> SyncPlanView {
        SyncPlanView { remote_ref: self.remote_ref@, branch: self.branch@ }
    }
}

/// What follows a build: the links to publish, and the marker to write
/// once they are.
#[derive(Debug, PartialEq, Eq)]
pub struct BuildPlan {
    pub links: Vec<Link>,
    pub marker_path: String,
    pub marker: String,
}

/// The mathematical value of a [`BuildPlan`].
pub struct BuildPlanView {
    pub links: Seq<LinkView>,
    pub marker_path: Seq<char>,
    pub marker: Seq<char>,
}

impl View for BuildPlan {
    type V = BuildPlanView;

    open spec fn view(&self) -> BuildPlanView {
        BuildPlanView {
            links: link_views(self.links@),
            marker_path: self.marker_path@,
            marker: self.marker@,
        }
    }
}

/// How the working copy of `repo` is got hold of.
pub open spec fn acquire_of(root: Seq<char>, repo: RepositoryView, present: bool) -> AcquireView {
    if present {
        AcquireView::Open { dir: repo_dir_of(root, repo.name) }
    } else {
        AcquireView::Clone { url: remote_url_of(repo.name), dir: repo_dir_of(root, repo.name) }
    }
}

/// The merge and checkout that bring the working copy onto `branch`.
pub open spec fn sync_plan_of(branch: Seq<char>) -> SyncPlanView {
    SyncPlanView { remote_ref: remote_ref_of(branch), branch }
}

/// What follows a build of `repo` that left `entries` in its release
/// directory and was made from the commit `head`.
pub open spec fn build_plan_of(
    root: Seq<char>,
    repo: RepositoryView,
    entries: Seq<DirEntryView>,
    head: Seq<char>,
) -> BuildPlanView {
    BuildPlanView {
        links: channel_links_of(
            root,
            repo.channel,
            artifacts_of(release_dir_of(root, repo.name), repo.glob, entries),
        ),
        marker_path: marker_file_of(root, repo.name),
        marker: head,
    }
}

/// The branch followed is the channel's own or `master`, and where the
/// remote has no branch of the channel's name it is `master`, whatever the
/// channel is called.
pub proof fn resolved_branch_is_channel_or_master(channel: Seq<char>, remotes: Seq<Seq<char>>)
    ensures
        resolve_branch_of(channel, remotes) == channel || resolve_branch_of(channel, remotes)
            == "master"@,
        !remotes.contains(remote_ref_of(channel)) ==> resolve_branch_of(channel, remotes)
            == "master"@,
{
}

/// Whether the remote holds a branch under the name `wanted`.
pub fn has_remote_branch(remotes: &Vec<String>, wanted: &str) -> (found: bool)
    ensures
        found == texts(remotes@).contains(wanted@),
{
    let mut i: usize = 0;
    while i < remotes.len()
        invariant
            i <= remotes.len(),
            forall|j: int| 0 <= j < i ==> texts(remotes@)[j] != wanted@,
        decreases remotes.len() - i,
    {
        if same_text(remotes[i].as_str(), wanted) {
            assert(texts(remotes@)[i as int] == wanted@);
            return true;
        }
        i += 1;
    }
    false
}

/// The branch to follow on `channel`, given the names of the remote
/// branches: the channel's own, or `master` where the remote has none of
/// that name. One lookup, one fallback; the result depends on nothing else.
pub fn resolve_branch(channel: &str, remotes: &Vec<String>) -> (branch: String)
    ensures
        branch@ == resolve_branch_of(channel@, texts(remotes@)),
{
    let wanted = join2("origin/", channel);
    if has_remote_branch(remotes, wanted.as_str()) {
        channel.to_owned()
    } else {
        "master".to_owned()
    }
}

/// Whether a build is due: the marker and the checked-out commit differ, or
/// `force` is set. Hashes are compared, never times.
pub fn needs_build(marker: &str, head: &str, force: bool) -> (due: bool)
    ensures
        due == stale(marker@, head@, force),
{
    force || !same_text(marker, head)
}

/// The text to show for a commit time, from what the formatter returned.
pub fn version_from(text: Option<String>) -> (version: Result<String, Fault>)
    ensures
        match text {
            Some(t) => version == Ok::<String, Fault>(t),
            None => version == Err::<String, Fault>(Fault::VersionControl),
        },
{
    match text {
        Some(t) => Ok(t),
        None => Err(Fault::VersionControl),
    }
}

impl Repository {
    /// The repository `name` as wanted on `channel`. Its binaries are
    /// known by the prefix `sb_`; until it is synchronised it is taken to
    /// follow the channel's own branch.
    pub fn new(channel: &str, name: &str) -> (repo: Repository)
        ensures
            repo@ == (RepositoryView {
                channel: channel@,
                name: name@,
                glob: "sb_"@,
                branch: channel@,
            }),
    {
        Repository {
            channel: channel.to_owned(),
            name: name.to_owned(),
            glob: "sb_".to_owned(),
            git_branch: channel.to_owned(),
        }
    }

    /// The repository's name.
    pub fn name(&self) -> (name: &str)
        ensures
            name@ == self@.name,
    {
        self.name.as_str()
    }

    /// The channel that the repository is wanted on.
    pub fn channel(&self) -> (channel: &str)
        ensures
            channel@ == self@.channel,
    {
        self.channel.as_str()
    }

    /// The branch that the repository follows.
    pub fn branch(&self) -> (branch: &str)
        ensures
            branch@ == self@.branch,
    {
        self.git_branch.as_str()
    }

    /// How to get hold of the working copy: clone it where `present` says
    /// that there is none yet, open it in place where there is.
    pub fn acquire(&self, layout: &PathLayout, present: bool) -> (how: Acquire)
        ensures
            how@ == acquire_of(layout@, self@, present),
    {
        let dir = layout.repo_dir(self.name.as_str());
        if present {
            Acquire::Open { dir }
        } else {
            Acquire::Clone { url: remote_url(self.name.as_str()), dir }
        }
    }

    /// Settles the branch to follow, given the names of the remote branches
    /// as they are after a fetch, and says how to bring the working copy
    /// onto it.
    ///
    /// The branch is the channel's own where the remote has it and `master`
    /// where not. Where the remote has neither, nothing can be checked out:
    /// that is a version-control failure.
    pub fn sync_repo(&mut self, remotes: &Vec<String>) -> (plan: Result<SyncPlan, Fault>)
        ensures
            final(self)@ == (RepositoryView {
                branch: resolve_branch_of(old(self)@.channel, texts(remotes@)),
                ..old(self)@
            }),
            plan is Ok <==> branch_available(old(self)@.channel, texts(remotes@)),
            plan matches Ok(p) ==> p@ == sync_plan_of(final(self)@.branch),
            plan matches Err(fault) ==> fault == Fault::VersionControl,
    {
        let branch = resolve_branch(self.channel.as_str(), remotes);
        let remote_ref = join2("origin/", branch.as_str());
        let available = has_remote_branch(remotes, remote_ref.as_str());
        self.git_branch = branch.clone();
        if available {
            Ok(SyncPlan { remote_ref, branch })
        } else {
            Err(Fault::VersionControl)
        }
    }

    /// Whether the checked-out commit `head` differs from the one recorded
    /// in the build marker. `marker` is the marker's text, empty where no
    /// marker has been written.
    pub fn check_updated(&self, marker: &str, head: &str) -> (updated: bool)
        ensures
            updated == (marker@ != head@),
            updated == stale(marker@, head@, false),
    {
        !same_text(marker, head)
    }

    /// What follows a build made from the commit `head`: a link in the
    /// channel's link directory for each publishable binary among `entries`,
    /// the listing of the release directory, and then the marker, which
    /// records `head`.
    pub fn build(&self, layout: &PathLayout, entries: &Vec<DirEntry>, head: &str) -> (plan:
        BuildPlan)
        ensures
            plan@ == build_plan_of(layout@, self@, entry_views(entries@), head@),
    {
        let release = layout.release_dir(self.name.as_str());
        let artifacts = select_artifacts(release.as_str(), self.glob.as_str(), entries);
        let links = channel_links(layout, self.channel.as_str(), &artifacts);
        BuildPlan {
            links,
            marker_path: layout.marker_file(self.name.as_str()),
            marker: head.to_owned(),
        }
    }

    /// The text shown as the repository's version: the time of its
    /// checked-out commit, `head_seconds` after the Unix epoch, as
    /// `year-month-day hour:minute:second` at nine hours east of UTC. A
    /// time that the formatter rejects is a version-control failure.
    pub fn version(&self, head_seconds: i64) -> (version: Result<String, Fault>)
        ensures
            match version_of(head_seconds) {
                Some(t) => version is Ok && version->Ok_0@ == t,
                None => version == Err::<String, Fault>(Fault::VersionControl),
            },
    {
        version_from(format_timestamp(head_seconds, VERSION_OFFSET, "%Y-%m-%d %H:%M:%S"))
    }
}

} // verus!
