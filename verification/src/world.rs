//! What the update does to the disk when the caller does as it is told.
//!
//! The disk is modelled by the build markers and the links that it holds,
//! the remote by what a caller finds there. A faithful caller answers each
//! request of the state machine with what it found and did. What then holds
//! of every such run is stated and proved here.

use vstd::prelude::*;
use crate::artifact::DirEntryView;
use crate::fault::Fault;
use crate::layout::{marker_file_of, marker_files_differ};
use crate::orchestrator::{
    advance,
    at_rest,
    begin_next,
    managed_names,
    repository_of,
    OrchestratorView,
};
use crate::pipeline::{finished, idle, next, ActionView, EventView, Outcome, RepoRunView, Stage};
use crate::layout::{bin_link_of, release_dir_of, toolchain_link_of};
use crate::artifact::artifacts_of;
use crate::publish::{
    activation_links_of,
    activation_points_at_channel,
    activation_scope,
    channel_links_leave_other_channels_alone,
    channel_links_lie_in_channel,
    channel_links_of,
    publish_all,
    stable_commands,
};
use crate::text::slash_free;
use crate::repo::{
    branch_available,
    build_plan_of,
    remote_ref_of,
    resolve_branch_of,
    stale,
    RepositoryView,
};

verus! {

/// What a caller finds for one repository while nothing changes upstream.
pub struct Upstream {
    /// Whether a working copy exists.
    pub present: bool,
    /// The names of the remote branches.
    pub remotes: Seq<Seq<char>>,
    /// The hash of the commit that a checkout arrives at.
    pub head: Seq<char>,
    /// The listing of the release directory after a build.
    pub entries: Seq<DirEntryView>,
}

/// What the disk holds: the text of each build marker, by its path, and
/// the target of each link, by its path.
pub struct Disk {
    pub markers: Map<Seq<char>, Seq<char>>,
    pub links: Map<Seq<char>, Seq<char>>,
}

/// The text of the marker at `path`; empty where there is none.
pub open spec fn marker_text(disk: Disk, path: Seq<char>) -> Seq<char> {
    if disk.markers.contains_key(path) {
        disk.markers[path]
    } else {
        Seq::empty()
    }
}

/// A faithful caller's answer to `action`: the disk after it, and the event
/// that reports it. Nothing fails.
pub open spec fn answer(disk: Disk, upstream: Upstream, action: ActionView) -> (Disk, EventView) {
    match action {
        ActionView::Locate { dir } => (disk, EventView::Located { present: upstream.present }),
        ActionView::Fetch { acquire } => (disk, EventView::Fetched { remotes: upstream.remotes }),
        ActionView::Checkout { dir, plan, marker_path } => (
            disk,
            EventView::CheckedOut { head: upstream.head, marker: marker_text(disk, marker_path) },
        ),
        ActionView::Build { dir, release_dir } => (
            disk,
            EventView::Built { succeeded: true, entries: upstream.entries },
        ),
        ActionView::Publish { links } => (
            Disk { links: publish_all(disk.links, links), ..disk },
            EventView::Published,
        ),
        ActionView::WriteMarker { path, text } => (
            Disk { markers: disk.markers.insert(path, text), ..disk },
            EventView::MarkerWritten,
        ),
        // Nothing is asked for, so nothing is done; `drive` never comes here.
        ActionView::Stop => (disk, EventView::Start),
    }
}

/// The update and the disk after a faithful caller has answered `action`
/// and up to `steps` requests that followed it.
pub open spec fn drive(
    root: Seq<char>,
    run: RepoRunView,
    action: ActionView,
    disk: Disk,
    upstream: Upstream,
    steps: nat,
) -> (RepoRunView, Disk)
    decreases steps,
{
    if steps == 0 || action is Stop {
        (run, disk)
    } else {
        let answered = answer(disk, upstream, action);
        let stepped = next(root, run, answered.1);
        drive(root, stepped.0, stepped.1, answered.0, upstream, (steps - 1) as nat)
    }
}

/// The update of `repo` from its beginning to its end, with a faithful
/// caller: the update as it ends, and the disk as it is left.
pub open spec fn run_repo(
    root: Seq<char>,
    repo: RepositoryView,
    force: bool,
    disk: Disk,
    upstream: Upstream,
) -> (RepoRunView, Disk) {
    let begun = next(root, idle(repo, force), EventView::Start);
    drive(root, begun.0, begun.1, disk, upstream, 6)
}

/// How the update of `repo` ends and what it leaves on disk, said directly.
///
/// Where the remote holds neither the channel's branch nor the fallback,
/// the update fails and the disk is as it was. Where the build is current
/// and not forced, the update is skipped and the disk is as it was.
/// Otherwise the publishable binaries are linked into the channel's link
/// directory and the marker records the checked-out commit.
pub open spec fn settled(
    root: Seq<char>,
    repo: RepositoryView,
    force: bool,
    disk: Disk,
    upstream: Upstream,
) -> (Stage, Disk) {
    let marker_path = marker_file_of(root, repo.name);
    if !branch_available(repo.channel, upstream.remotes) {
        (Stage::Failed(Fault::VersionControl), disk)
    } else if !stale(marker_text(disk, marker_path), upstream.head, force) {
        (Stage::Done(Outcome::Skipped), disk)
    } else {
        (
            Stage::Done(Outcome::Updated),
            Disk {
                markers: disk.markers.insert(marker_path, upstream.head),
                links: publish_all(
                    disk.links,
                    build_plan_of(root, repo, upstream.entries, upstream.head).links,
                ),
            },
        )
    }
}

/// With a faithful caller the state machine ends as `settled` says, after
/// at most six answers, and follows the branch that the channel resolves
/// to.
pub proof fn run_repo_settles(
    root: Seq<char>,
    repo: RepositoryView,
    force: bool,
    disk: Disk,
    upstream: Upstream,
)
    ensures
        finished(run_repo(root, repo, force, disk, upstream).0.stage),
        run_repo(root, repo, force, disk, upstream).0.stage == settled(
            root,
            repo,
            force,
            disk,
            upstream,
        ).0,
        run_repo(root, repo, force, disk, upstream).1 == settled(
            root,
            repo,
            force,
            disk,
            upstream,
        ).1,
        run_repo(root, repo, force, disk, upstream).0.repo.branch == resolve_branch_of(
            repo.channel,
            upstream.remotes,
        ),
{
    reveal_with_fuel(drive, 7);
}

/// Where the remote has no branch of the channel's name, the branch
/// followed is `master`, whatever the channel is called.
pub proof fn fallback_is_master(
    root: Seq<char>,
    repo: RepositoryView,
    force: bool,
    disk: Disk,
    upstream: Upstream,
)
    requires
        !upstream.remotes.contains(remote_ref_of(repo.channel)),
    ensures
        resolve_branch_of(repo.channel, upstream.remotes) == "master"@,
        run_repo(root, repo, force, disk, upstream).0.repo.branch == "master"@,
{
    run_repo_settles(root, repo, force, disk, upstream);
}

/// Once a build has been made from a commit and its marker written, the
/// same commit is no longer stale, unless a build is forced.
pub proof fn built_commit_is_current(
    root: Seq<char>,
    repo: RepositoryView,
    force: bool,
    disk: Disk,
    upstream: Upstream,
)
    requires
        settled(root, repo, force, disk, upstream).0 == Stage::Done(Outcome::Updated),
    ensures
        ({
            let after = settled(root, repo, force, disk, upstream).1;
            let marker = marker_text(after, marker_file_of(root, repo.name));
            &&& marker == upstream.head
            &&& !stale(marker, upstream.head, false)
        }),
{
}

/// An update that did not fail, run again while nothing has changed
/// upstream, is skipped and leaves every marker and every link as it was.
pub proof fn second_run_is_skipped(
    root: Seq<char>,
    repo: RepositoryView,
    force: bool,
    disk: Disk,
    upstream: Upstream,
)
    requires
        run_repo(root, repo, force, disk, upstream).0.stage is Done,
    ensures
        ({
            let first = run_repo(root, repo, force, disk, upstream);
            let second = run_repo(root, repo, false, first.1, upstream);
            &&& second.0.stage == Stage::Done(Outcome::Skipped)
            &&& second.1 == first.1
        }),
{
    run_repo_settles(root, repo, force, disk, upstream);
    let first = settled(root, repo, force, disk, upstream);
    run_repo_settles(root, repo, false, first.1, upstream);
}

/// No name occurs twice in `names`.
pub open spec fn distinct(names: Seq<Seq<char>>) -> bool {
    forall|i: int, j: int| 0 <= i < j < names.len() ==> names[i] != names[j]
}

/// How the update of the repositories `names` ends and what it leaves on
/// disk, said directly: each repository is settled in turn, on the disk
/// that the one before it left. `upstreams[i]` is what the caller finds for
/// `names[i]`.
pub open spec fn settle_all(
    root: Seq<char>,
    channel: Seq<char>,
    force: bool,
    names: Seq<Seq<char>>,
    disk: Disk,
    upstreams: Seq<Upstream>,
) -> (Seq<Stage>, Disk)
    decreases names.len(),
{
    if names.len() == 0 {
        (Seq::empty(), disk)
    } else {
        let before = settle_all(root, channel, force, names.drop_last(), disk, upstreams);
        let last = settled(
            root,
            repository_of(channel, names.last()),
            force,
            before.1,
            upstreams[names.len() - 1],
        );
        (before.0.push(last.0), last.1)
    }
}

/// The whole and the disk after a faithful caller has answered `action`
/// and up to `steps` requests that followed it.
pub open spec fn drive_all(
    root: Seq<char>,
    all: OrchestratorView,
    action: ActionView,
    disk: Disk,
    upstreams: Seq<Upstream>,
    steps: nat,
) -> (OrchestratorView, Disk)
    decreases steps,
{
    if steps == 0 || action is Stop {
        (all, disk)
    } else {
        let answered = answer(disk, upstreams[all.stages.len() as int], action);
        let stepped = advance(root, all, answered.1);
        drive_all(root, stepped.0, stepped.1, answered.0, upstreams, (steps - 1) as nat)
    }
}

/// The update of the repositories `names` from its beginning to its end,
/// with a faithful caller.
pub open spec fn run_all(
    root: Seq<char>,
    channel: Seq<char>,
    force: bool,
    names: Seq<Seq<char>>,
    disk: Disk,
    upstreams: Seq<Upstream>,
) -> (OrchestratorView, Disk) {
    let begun = begin_next(root, at_rest(channel, force, names));
    drive_all(root, begun.0, begun.1, disk, upstreams, 6 * names.len())
}

/// `settle_all` gives one stage for each repository.
pub proof fn settle_all_len(
    root: Seq<char>,
    channel: Seq<char>,
    force: bool,
    names: Seq<Seq<char>>,
    disk: Disk,
    upstreams: Seq<Upstream>,
)
    ensures
        settle_all(root, channel, force, names, disk, upstreams).0.len() == names.len(),
    decreases names.len(),
{
    if names.len() > 0 {
        settle_all_len(root, channel, force, names.drop_last(), disk, upstreams);
    }
}

/// The managed repositories bear six different names.
pub proof fn managed_names_distinct()
    ensures
        distinct(managed_names()),
        managed_names().len() == 6,
{
    reveal_strlit("penv-manager");
    reveal_strlit("compiler");
    reveal_strlit("linker");
    reveal_strlit("assembler");
    reveal_strlit("emulator");
    reveal_strlit("builder");
    let names = managed_names();
    assert(names[0].len() == 12 && names[1].len() == 8 && names[2].len() == 6);
    assert(names[3].len() == 9 && names[4].len() == 8 && names[5].len() == 7);
    assert(names[1][0] == 'c' && names[4][0] == 'e');
}

/// The update of one repository leaves the marker of every other
/// repository as it was.
pub proof fn other_markers_kept(
    root: Seq<char>,
    repo: RepositoryView,
    force: bool,
    disk: Disk,
    upstream: Upstream,
    other: Seq<char>,
)
    requires
        other != repo.name,
    ensures
        marker_text(settled(root, repo, force, disk, upstream).1, marker_file_of(root, other))
            == marker_text(disk, marker_file_of(root, other)),
{
    if marker_file_of(root, other) == marker_file_of(root, repo.name) {
        marker_files_differ(root, other, repo.name);
    }
}

/// After the update of all repositories, the marker of each one that did
/// not fail records the commit that its checkout arrived at.
pub proof fn markers_record_heads(
    root: Seq<char>,
    channel: Seq<char>,
    force: bool,
    names: Seq<Seq<char>>,
    disk: Disk,
    upstreams: Seq<Upstream>,
    i: int,
)
    requires
        distinct(names),
        0 <= i < names.len(),
        settle_all(root, channel, force, names, disk, upstreams).0[i] is Done,
    ensures
        marker_text(
            settle_all(root, channel, force, names, disk, upstreams).1,
            marker_file_of(root, names[i]),
        ) == upstreams[i].head,
    decreases names.len(),
{
    let front = names.drop_last();
    settle_all_len(root, channel, force, front, disk, upstreams);
    let before = settle_all(root, channel, force, front, disk, upstreams);
    if i < names.len() - 1 {
        assert(front[i] == names[i]);
        assert(distinct(front)) by {
            assert forall|a: int, b: int| 0 <= a < b < front.len() implies front[a] != front[b] by {
                assert(front[a] == names[a] && front[b] == names[b]);
            }
        }
        markers_record_heads(root, channel, force, front, disk, upstreams, i);
        other_markers_kept(
            root,
            repository_of(channel, names.last()),
            force,
            before.1,
            upstreams[names.len() - 1],
            names[i],
        );
    }
}

/// On a disk whose markers record the commits that the checkouts arrive
/// at, an unforced update changes nothing: every repository whose branch is
/// there is skipped, every other fails as before.
pub proof fn rerun_changes_nothing(
    root: Seq<char>,
    channel: Seq<char>,
    names: Seq<Seq<char>>,
    disk: Disk,
    upstreams: Seq<Upstream>,
)
    requires
        forall|i: int|
            0 <= i < names.len() && branch_available(channel, (#[trigger] upstreams[i]).remotes)
                ==> marker_text(disk, marker_file_of(root, names[i])) == upstreams[i].head,
    ensures
        settle_all(root, channel, false, names, disk, upstreams).1 == disk,
        settle_all(root, channel, false, names, disk, upstreams).0.len() == names.len(),
        forall|i: int|
            0 <= i < names.len() ==> #[trigger] settle_all(
                root,
                channel,
                false,
                names,
                disk,
                upstreams,
            ).0[i] == if branch_available(channel, upstreams[i].remotes) {
                Stage::Done(Outcome::Skipped)
            } else {
                Stage::Failed(Fault::VersionControl)
            },
    decreases names.len(),
{
    if names.len() > 0 {
        let front = names.drop_last();
        assert forall|i: int|
            0 <= i < front.len() && branch_available(
                channel,
                (#[trigger] upstreams[i]).remotes,
            ) implies marker_text(disk, marker_file_of(root, front[i])) == upstreams[i].head by {
            assert(front[i] == names[i]);
        }
        rerun_changes_nothing(root, channel, front, disk, upstreams);
        let before = settle_all(root, channel, false, front, disk, upstreams);
        let after = settle_all(root, channel, false, names, disk, upstreams);
        assert forall|i: int| 0 <= i < names.len() implies #[trigger] after.0[i]
            == if branch_available(channel, upstreams[i].remotes) {
            Stage::Done(Outcome::Skipped)
        } else {
            Stage::Failed(Fault::VersionControl)
        } by {
            if i < front.len() {
                assert(after.0[i] == before.0[i]);
            }
        }
    }
}

/// Updating all repositories twice in a row, while nothing changes
/// upstream, changes nothing the second time: every repository that did not
/// fail the first time is skipped, every other fails as it did, and every
/// marker and every link is as the first update left it.
pub proof fn second_update_skips_all(
    root: Seq<char>,
    channel: Seq<char>,
    force: bool,
    names: Seq<Seq<char>>,
    disk: Disk,
    upstreams: Seq<Upstream>,
)
    requires
        distinct(names),
    ensures
        ({
            let first = settle_all(root, channel, force, names, disk, upstreams);
            let second = settle_all(root, channel, false, names, first.1, upstreams);
            &&& second.1 == first.1
            &&& second.0.len() == names.len()
            &&& forall|i: int|
                0 <= i < names.len() && (#[trigger] first.0[i]) is Done ==> second.0[i]
                    == Stage::Done(Outcome::Skipped)
            &&& forall|i: int|
                0 <= i < names.len() && !((#[trigger] first.0[i]) is Done) ==> second.0[i]
                    == first.0[i]
        }),
{
    let first = settle_all(root, channel, force, names, disk, upstreams);
    settle_all_len(root, channel, force, names, disk, upstreams);
    assert forall|i: int| 0 <= i < names.len() implies ((#[trigger] first.0[i]) is Done
        <==> branch_available(channel, upstreams[i].remotes)) && (!(first.0[i] is Done)
        ==> first.0[i] == Stage::Failed(Fault::VersionControl)) by {
        stage_follows_branch(root, channel, force, names, disk, upstreams, i);
    }
    assert forall|i: int|
        0 <= i < names.len() && branch_available(
            channel,
            (#[trigger] upstreams[i]).remotes,
        ) implies marker_text(first.1, marker_file_of(root, names[i])) == upstreams[i].head by {
        markers_record_heads(root, channel, force, names, disk, upstreams, i);
    }
    rerun_changes_nothing(root, channel, names, first.1, upstreams);
}

/// A repository fails exactly where the remote holds neither its channel's
/// branch nor the fallback.
pub proof fn stage_follows_branch(
    root: Seq<char>,
    channel: Seq<char>,
    force: bool,
    names: Seq<Seq<char>>,
    disk: Disk,
    upstreams: Seq<Upstream>,
    i: int,
)
    requires
        0 <= i < names.len(),
    ensures
        settle_all(root, channel, force, names, disk, upstreams).0[i] is Done <==> branch_available(
            channel,
            upstreams[i].remotes,
        ),
        !(settle_all(root, channel, force, names, disk, upstreams).0[i] is Done) ==> settle_all(
            root,
            channel,
            force,
            names,
            disk,
            upstreams,
        ).0[i] == Stage::Failed(Fault::VersionControl),
    decreases names.len(),
{
    let front = names.drop_last();
    settle_all_len(root, channel, force, front, disk, upstreams);
    if i < names.len() - 1 {
        stage_follows_branch(root, channel, force, front, disk, upstreams, i);
    }
}

/// The whole with the first `k` repositories through and nothing under way.
pub open spec fn through(
    root: Seq<char>,
    channel: Seq<char>,
    force: bool,
    names: Seq<Seq<char>>,
    disk: Disk,
    upstreams: Seq<Upstream>,
    k: int,
) -> OrchestratorView {
    OrchestratorView {
        channel,
        force,
        names,
        stages: settle_all(root, channel, force, names.take(k), disk, upstreams).0,
        current: None,
    }
}

/// From the point where `k` repositories are through, a faithful caller
/// brings the whole to the end that `settle_all` describes, in at most six
/// answers for each repository that is left.
pub proof fn drive_all_settles(
    root: Seq<char>,
    channel: Seq<char>,
    force: bool,
    names: Seq<Seq<char>>,
    disk: Disk,
    upstreams: Seq<Upstream>,
    k: int,
    steps: nat,
)
    requires
        0 <= k <= names.len(),
        steps >= 6 * (names.len() - k),
    ensures
        ({
            let so_far = settle_all(root, channel, force, names.take(k), disk, upstreams);
            let begun = begin_next(
                root,
                through(root, channel, force, names, disk, upstreams, k),
            );
            let end = drive_all(root, begun.0, begun.1, so_far.1, upstreams, steps);
            let whole = settle_all(root, channel, force, names, disk, upstreams);
            &&& end.0 == through(root, channel, force, names, disk, upstreams, names.len() as int)
            &&& end.0.stages == whole.0
            &&& end.1 == whole.1
        }),
    decreases names.len() - k,
{
    assert(names.take(names.len() as int) =~= names);
    settle_all_len(root, channel, force, names.take(k), disk, upstreams);
    if k < names.len() {
        let so_far = settle_all(root, channel, force, names.take(k), disk, upstreams);
        let repo = repository_of(channel, names[k]);
        let one = settled(root, repo, force, so_far.1, upstreams[k]);
        assert(names.take(k + 1).drop_last() =~= names.take(k));
        assert(names.take(k + 1).last() == names[k]);
        assert(settle_all(root, channel, force, names.take(k + 1), disk, upstreams) == (
            so_far.0.push(one.0),
            one.1,
        ));
        drive_all_settles(root, channel, force, names, disk, upstreams, k + 1, (steps - 2) as nat);
        drive_all_settles(root, channel, force, names, disk, upstreams, k + 1, (steps - 3) as nat);
        drive_all_settles(root, channel, force, names, disk, upstreams, k + 1, (steps - 6) as nat);
        reveal_with_fuel(drive_all, 7);
    }
}

/// With a faithful caller the update of all repositories ends as
/// `settle_all` says: one stage for each repository, in their order, and
/// the disk as the last of them left it.
pub proof fn run_all_settles(
    root: Seq<char>,
    channel: Seq<char>,
    force: bool,
    names: Seq<Seq<char>>,
    disk: Disk,
    upstreams: Seq<Upstream>,
)
    ensures
        run_all(root, channel, force, names, disk, upstreams).0.current is None,
        run_all(root, channel, force, names, disk, upstreams).0.stages == settle_all(
            root,
            channel,
            force,
            names,
            disk,
            upstreams,
        ).0,
        run_all(root, channel, force, names, disk, upstreams).1 == settle_all(
            root,
            channel,
            force,
            names,
            disk,
            upstreams,
        ).1,
{
    assert(names.take(0) =~= Seq::<Seq<char>>::empty());
    assert(through(root, channel, force, names, disk, upstreams, 0) == at_rest(
        channel,
        force,
        names,
    ));
    drive_all_settles(root, channel, force, names, disk, upstreams, 0, 6 * names.len());
}

/// What setting the default channel to `channel` leaves behind: every
/// managed repository is updated on the channel, unforced, and then the
/// stable links are published for it.
pub open spec fn set_default(
    root: Seq<char>,
    channel: Seq<char>,
    disk: Disk,
    upstreams: Seq<Upstream>,
) -> (Seq<Stage>, Disk) {
    let updated = settle_all(root, channel, false, managed_names(), disk, upstreams);
    (
        updated.0,
        Disk {
            links: publish_all(updated.1.links, activation_links_of(root, channel)),
            ..updated.1
        },
    )
}

/// The update of repositories on one channel leaves every link of every
/// other channel's link directory as it was.
pub proof fn update_leaves_other_channels_alone(
    root: Seq<char>,
    channel: Seq<char>,
    force: bool,
    names: Seq<Seq<char>>,
    disk: Disk,
    upstreams: Seq<Upstream>,
    other: Seq<char>,
    artifact: Seq<char>,
)
    requires
        other != channel,
        slash_free(artifact),
    ensures
        ({
            let path = toolchain_link_of(root, other, artifact);
            let after = settle_all(root, channel, force, names, disk, upstreams).1;
            &&& after.links.contains_key(path) <==> disk.links.contains_key(path)
            &&& disk.links.contains_key(path) ==> after.links[path] == disk.links[path]
        }),
    decreases names.len(),
{
    if names.len() > 0 {
        let front = names.drop_last();
        update_leaves_other_channels_alone(
            root,
            channel,
            force,
            front,
            disk,
            upstreams,
            other,
            artifact,
        );
        let before = settle_all(root, channel, force, front, disk, upstreams).1;
        let repo = repository_of(channel, names.last());
        let upstream = upstreams[names.len() - 1];
        let artifacts = artifacts_of(release_dir_of(root, repo.name), repo.glob, upstream.entries);
        channel_links_lie_in_channel(root, channel, artifacts);
        channel_links_leave_other_channels_alone(
            before.links,
            root,
            channel_links_of(root, channel, artifacts),
            channel,
            other,
            artifact,
        );
    }
}

/// After the default channel has been set, every stable command leads
/// into that channel's link directory and nowhere else, and the links in
/// the link directory of every other channel are as they were.
pub proof fn set_default_scope(
    root: Seq<char>,
    channel: Seq<char>,
    disk: Disk,
    upstreams: Seq<Upstream>,
    other: Seq<char>,
    artifact: Seq<char>,
)
    requires
        other != channel,
        slash_free(artifact),
    ensures
        ({
            let after = set_default(root, channel, disk, upstreams).1;
            let path = toolchain_link_of(root, other, artifact);
            &&& forall|i: int|
                0 <= i < stable_commands().len() ==> after.links.contains_key(
                    bin_link_of(root, (#[trigger] stable_commands()[i]).1),
                ) && after.links[bin_link_of(root, stable_commands()[i].1)] == toolchain_link_of(
                    root,
                    channel,
                    stable_commands()[i].0,
                )
            &&& after.links.contains_key(path) <==> disk.links.contains_key(path)
            &&& disk.links.contains_key(path) ==> after.links[path] == disk.links[path]
        }),
{
    let updated = settle_all(root, channel, false, managed_names(), disk, upstreams).1;
    update_leaves_other_channels_alone(
        root,
        channel,
        false,
        managed_names(),
        disk,
        upstreams,
        other,
        artifact,
    );
    activation_scope(updated.links, root, channel, other, artifact);
    assert forall|i: int| 0 <= i < stable_commands().len() implies publish_all(
        updated.links,
        activation_links_of(root, channel),
    ).contains_key(bin_link_of(root, (#[trigger] stable_commands()[i]).1)) && publish_all(
        updated.links,
        activation_links_of(root, channel),
    )[bin_link_of(root, stable_commands()[i].1)] == toolchain_link_of(
        root,
        channel,
        stable_commands()[i].0,
    ) by {
        activation_points_at_channel(updated.links, root, channel, i);
    }
}

/// The update of the managed repositories is idempotent: carried out a
/// second time by a faithful caller, unforced and while nothing changes
/// upstream, it skips every repository that did not fail the first time
/// and leaves every marker and every link as the first update left it.
pub proof fn update_is_idempotent(
    root: Seq<char>,
    channel: Seq<char>,
    force: bool,
    disk: Disk,
    upstreams: Seq<Upstream>,
)
    ensures
        ({
            let first = run_all(root, channel, force, managed_names(), disk, upstreams);
            let second = run_all(root, channel, false, managed_names(), first.1, upstreams);
            &&& second.1 == first.1
            &&& first.0.stages.len() == managed_names().len()
            &&& second.0.stages.len() == managed_names().len()
            &&& forall|i: int|
                0 <= i < managed_names().len() && (#[trigger] first.0.stages[i]) is Done
                    ==> second.0.stages[i] == Stage::Done(Outcome::Skipped)
        }),
{
    let names = managed_names();
    managed_names_distinct();
    run_all_settles(root, channel, force, names, disk, upstreams);
    settle_all_len(root, channel, force, names, disk, upstreams);
    let first = settle_all(root, channel, force, names, disk, upstreams);
    run_all_settles(root, channel, false, names, first.1, upstreams);
    second_update_skips_all(root, channel, force, names, disk, upstreams);
}

} // verus!
