//! Making built binaries reachable under stable names.
//!
//! A binary is published as a symbolic link. There are two tiers: one link
//! per binary in the link directory of the channel it was built for, and a
//! fixed set of command names in the stable directory, which point into
//! the link directory of the active channel.
//!
//! A link is never removed and made anew. It is first made under a staging
//! name in the same directory and then renamed over the published name, so
//! that a name that resolved before resolves at every moment.
//!
//! The links on disk are modelled as a map from the path of a link to its
//! target.

use vstd::prelude::*;
use crate::layout::{
    bin_dir_of,
    bin_link_is_no_toolchain_link,
    bin_link_of,
    join_path,
    toolchain_dir_of,
    toolchain_link_of,
    toolchain_links_differ,
    PathLayout,
};
use crate::text::{base_name, file_name, join2, name_start_properties, slash_free, texts};

verus! {

/// A symbolic link to publish: the entry `name` of the directory `dir`,
/// pointing at `target`.
#[derive(Debug, PartialEq, Eq)]
pub struct Link {
    pub target: String,
    pub dir: String,
    pub name: String,
}

/// The mathematical value of a [`Link`].
pub struct LinkView {
    pub target: Seq<char>,
    pub dir: Seq<char>,
    pub name: Seq<char>,
}

impl View for Link {
    type V = LinkView;

    open spec fn view(&self) -> LinkView {
        LinkView { target: self.target@, dir: self.dir@, name: self.name@ }
    }
}

impl LinkView {
    /// The path under which the link is published.
    pub open spec fn path(self) -> Seq<char> {
        self.dir + seq!['/'] + self.name
    }

    /// The path under which the link is made before it is published: a
    /// hidden entry of the same directory.
    pub open spec fn staging(self) -> Seq<char> {
        self.dir + seq!['/'] + (seq!['.'] + self.name)
    }
}

/// The views of a list of links.
pub open spec fn link_views(links: Seq<Link>) -> Seq<LinkView> {
    links.map_values(|link: Link| link@)
}

/// One primitive step on the links on disk.
#[derive(Debug, PartialEq, Eq)]
pub enum LinkOp {
    /// Make a symbolic link at `path` that points at `target`. `path` is a
    /// staging name: whatever was left under it is replaced.
    Symlink { target: String, path: String },
    /// Rename the link `from` to `to`, replacing `to` in one step.
    Rename { from: String, to: String },
}

/// The mathematical value of a [`LinkOp`].
pub enum LinkOpView {
    Symlink { target: Seq<char>, path: Seq<char> },
    Rename { from: Seq<char>, to: Seq<char> },
}

impl View for LinkOp {
    type V = LinkOpView;

    open spec fn view(&self) -> LinkOpView {
        match self {
            LinkOp::Symlink { target, path } => LinkOpView::Symlink {
                target: target@,
                path: path@,
            },
            LinkOp::Rename { from, to } => LinkOpView::Rename { from: from@, to: to@ },
        }
    }
}

/// The views of a list of steps.
pub open spec fn op_views(ops: Seq<LinkOp>) -> Seq<LinkOpView> {
    ops.map_values(|op: LinkOp| op@)
}

/// The links on disk after one step.
pub open spec fn apply_op(table: Map<Seq<char>, Seq<char>>, op: LinkOpView) -> Map<
    Seq<char>,
    Seq<char>,
> {
    match op {
        LinkOpView::Symlink { target, path } => table.insert(path, target),
        LinkOpView::Rename { from, to } => if table.contains_key(from) {
            table.remove(from).insert(to, table[from])
        } else {
            table
        },
    }
}

/// The two steps that publish a link: make it under its staging name, then
/// rename it over its published name.
pub open spec fn replace_ops_of(link: LinkView) -> Seq<LinkOpView> {
    seq![
        LinkOpView::Symlink { target: link.target, path: link.staging() },
        LinkOpView::Rename { from: link.staging(), to: link.path() },
    ]
}

/// The links on disk after `link` was published.
pub open spec fn publish_link(table: Map<Seq<char>, Seq<char>>, link: LinkView) -> Map<
    Seq<char>,
    Seq<char>,
> {
    apply_op(apply_op(table, replace_ops_of(link)[0]), replace_ops_of(link)[1])
}

/// The links on disk after `links` were published one after the other.
pub open spec fn publish_all(table: Map<Seq<char>, Seq<char>>, links: Seq<LinkView>) -> Map<
    Seq<char>,
    Seq<char>,
>
    decreases links.len(),
{
    if links.len() == 0 {
        table
    } else {
        publish_link(publish_all(table, links.drop_last()), links.last())
    }
}

/// The link that publishes the binary at `artifact` for `channel`: it has
/// the binary's file name and lies in the channel's link directory.
pub open spec fn channel_link_of(root: Seq<char>, channel: Seq<char>, artifact: Seq<char>) -> LinkView {
    LinkView { target: artifact, dir: toolchain_dir_of(root, channel), name: base_name(artifact) }
}

/// The links that publish the binaries `artifacts` for `channel`, one for
/// each and in their order.
pub open spec fn channel_links_of(
    root: Seq<char>,
    channel: Seq<char>,
    artifacts: Seq<Seq<char>>,
) -> Seq<LinkView> {
    Seq::new(artifacts.len(), |i: int| channel_link_of(root, channel, artifacts[i]))
}

/// The stable link `command`, pointing at the link `artifact` of `channel`.
pub open spec fn activation_link_of(
    root: Seq<char>,
    channel: Seq<char>,
    artifact: Seq<char>,
    command: Seq<char>,
) -> LinkView {
    LinkView {
        target: toolchain_link_of(root, channel, artifact),
        dir: bin_dir_of(root),
        name: command,
    }
}

/// The stable command names, each with the binary that it stands for.
pub open spec fn stable_commands() -> Seq<(Seq<char>, Seq<char>)> {
    seq![
        ("sb_penvman_cli"@, "sb-penvman"@),
        ("sb_compiler_cli"@, "sb-compiler"@),
        ("sb_linker_cli"@, "sb-linker"@),
        ("sb_assembler_cli"@, "sb-assembler"@),
        ("sb_emulator_cli"@, "sb-emulator-cli"@),
        ("sb_emulator_tui"@, "sb-emulator-tui"@),
        ("sb_builder_cli"@, "sb-builder"@),
        ("sb_objdump_cli"@, "sb-objdump"@),
    ]
}

/// The links that make `channel` the one that the stable names lead to:
/// one for every stable command, in the order of the table.
pub open spec fn activation_links_of(root: Seq<char>, channel: Seq<char>) -> Seq<LinkView> {
    Seq::new(
        stable_commands().len(),
        |i: int|
            activation_link_of(root, channel, stable_commands()[i].0, stable_commands()[i].1),
    )
}

/// The steps that publish `link` without ever leaving its name unresolved.
pub fn replace_ops(link: &Link) -> (ops: Vec<LinkOp>)
    ensures
        op_views(ops@) == replace_ops_of(link@),
{
    proof {
        reveal_strlit(".");
        assert("."@ =~= seq!['.']);
    }
    let hidden = join2(".", link.name.as_str());
    let staging = join_path(link.dir.as_str(), hidden.as_str());
    let path = join_path(link.dir.as_str(), link.name.as_str());
    let mut ops: Vec<LinkOp> = Vec::new();
    ops.push(LinkOp::Symlink { target: link.target.clone(), path: staging.clone() });
    ops.push(LinkOp::Rename { from: staging, to: path });
    assert(op_views(ops@) =~= replace_ops_of(link@));
    ops
}

/// The link that publishes the binary at the path `artifact` for `channel`.
pub fn channel_link(layout: &PathLayout, channel: &str, artifact: &str) -> (link: Link)
    ensures
        link@ == channel_link_of(layout@, channel@, artifact@),
{
    Link {
        target: artifact.to_owned(),
        dir: layout.toolchain_dir(channel),
        name: file_name(artifact),
    }
}

/// The links that publish the binaries at the paths `artifacts` for
/// `channel`. No binary, no link.
pub fn channel_links(layout: &PathLayout, channel: &str, artifacts: &Vec<String>) -> (links: Vec<
    Link,
>)
    ensures
        link_views(links@) == channel_links_of(layout@, channel@, texts(artifacts@)),
{
    let mut links: Vec<Link> = Vec::new();
    let mut i: usize = 0;
    while i < artifacts.len()
        invariant
            i <= artifacts.len(),
            links.len() == i,
            forall|j: int|
                0 <= j < i ==> (#[trigger] links[j])@ == channel_link_of(
                    layout@,
                    channel@,
                    artifacts[j]@,
                ),
        decreases artifacts.len() - i,
    {
        let link = channel_link(layout, channel, artifacts[i].as_str());
        links.push(link);
        i += 1;
    }
    assert(link_views(links@) =~= channel_links_of(layout@, channel@, texts(artifacts@)));
    links
}

/// The stable link `sym`, pointing at the link `bin` of `channel`.
pub fn set_symlink(layout: &PathLayout, channel: &str, bin: &str, sym: &str) -> (link: Link)
    ensures
        link@ == activation_link_of(layout@, channel@, bin@, sym@),
{
    Link {
        target: layout.toolchain_link(channel, bin),
        dir: layout.bin_dir(),
        name: sym.to_owned(),
    }
}

/// The links that make `channel` the one that the stable names lead to.
/// Only these change what is found on the search path.
pub fn activation_links(layout: &PathLayout, channel: &str) -> (links: Vec<Link>)
    ensures
        link_views(links@) == activation_links_of(layout@, channel@),
{
    let mut links: Vec<Link> = Vec::new();
    links.push(set_symlink(layout, channel, "sb_penvman_cli", "sb-penvman"));
    links.push(set_symlink(layout, channel, "sb_compiler_cli", "sb-compiler"));
    links.push(set_symlink(layout, channel, "sb_linker_cli", "sb-linker"));
    links.push(set_symlink(layout, channel, "sb_assembler_cli", "sb-assembler"));
    links.push(set_symlink(layout, channel, "sb_emulator_cli", "sb-emulator-cli"));
    links.push(set_symlink(layout, channel, "sb_emulator_tui", "sb-emulator-tui"));
    links.push(set_symlink(layout, channel, "sb_builder_cli", "sb-builder"));
    links.push(set_symlink(layout, channel, "sb_objdump_cli", "sb-objdump"));
    assert(link_views(links@) =~= activation_links_of(layout@, channel@));
    links
}

/// Publishing a link sets its name and clears its staging name; no other
/// path changes.
pub proof fn publish_link_effect(table: Map<Seq<char>, Seq<char>>, link: LinkView)
    ensures
        publish_link(table, link) == table.remove(link.staging()).insert(link.path(), link.target),
        link.path() != link.staging(),
{
    assert(link.path().len() + 1 == link.staging().len());
    assert(publish_link(table, link) =~= table.remove(link.staging()).insert(
        link.path(),
        link.target,
    ));
}

/// A published name that resolved before its link is replaced resolves
/// after each of the two steps: after the first to what it resolved to
/// before, after the second to the new target. The staging name is gone at
/// the end, and no other path has changed.
pub proof fn replace_keeps_name_resolved(table: Map<Seq<char>, Seq<char>>, link: LinkView)
    ensures
        ({
            let staged = apply_op(table, replace_ops_of(link)[0]);
            let done = apply_op(staged, replace_ops_of(link)[1]);
            &&& table.contains_key(link.path()) ==> staged.contains_key(link.path())
                && staged[link.path()] == table[link.path()]
            &&& done.contains_key(link.path())
            &&& done[link.path()] == link.target
            &&& !done.contains_key(link.staging())
            &&& forall|p: Seq<char>|
                p != link.path() && p != link.staging() ==> (done.contains_key(p)
                    <==> table.contains_key(p)) && (table.contains_key(p) ==> done[p] == table[p])
        }),
{
    publish_link_effect(table, link);
}

/// Publishing links of the stable directory leaves every link of every
/// channel's link directory as it was.
pub proof fn stable_links_leave_channels_alone(
    table: Map<Seq<char>, Seq<char>>,
    root: Seq<char>,
    links: Seq<LinkView>,
    channel: Seq<char>,
    artifact: Seq<char>,
)
    requires
        forall|i: int| 0 <= i < links.len() ==> (#[trigger] links[i]).dir == bin_dir_of(root),
    ensures
        ({
            let path = toolchain_link_of(root, channel, artifact);
            let after = publish_all(table, links);
            &&& after.contains_key(path) <==> table.contains_key(path)
            &&& table.contains_key(path) ==> after[path] == table[path]
        }),
    decreases links.len(),
{
    if links.len() > 0 {
        let link = links.last();
        let front = links.drop_last();
        assert forall|i: int| 0 <= i < front.len() implies (#[trigger] front[i]).dir == bin_dir_of(
            root,
        ) by {
            assert(front[i] == links[i]);
        }
        stable_links_leave_channels_alone(table, root, front, channel, artifact);
        publish_link_effect(publish_all(table, front), link);
        assert(link.path() == bin_link_of(root, link.name));
        assert(link.staging() == bin_link_of(root, seq!['.'] + link.name));
        bin_link_is_no_toolchain_link(root, link.name, channel, artifact);
        bin_link_is_no_toolchain_link(root, seq!['.'] + link.name, channel, artifact);
    }
}

/// Making a channel the active one changes stable links only: each stable
/// command then leads into that channel's link directory, and every link
/// of every channel's link directory is as it was.
pub proof fn activation_scope(
    table: Map<Seq<char>, Seq<char>>,
    root: Seq<char>,
    active: Seq<char>,
    channel: Seq<char>,
    artifact: Seq<char>,
)
    ensures
        ({
            let links = activation_links_of(root, active);
            let path = toolchain_link_of(root, channel, artifact);
            let after = publish_all(table, links);
            &&& forall|i: int|
                0 <= i < links.len() ==> {
                    &&& (#[trigger] links[i]).dir == bin_dir_of(root)
                    &&& links[i].name == stable_commands()[i].1
                    &&& links[i].target == toolchain_link_of(root, active, stable_commands()[i].0)
                }
            &&& after.contains_key(path) <==> table.contains_key(path)
            &&& table.contains_key(path) ==> after[path] == table[path]
        }),
{
    stable_links_leave_channels_alone(
        table,
        root,
        activation_links_of(root, active),
        channel,
        artifact,
    );
}

/// Publishing links of one channel's link directory leaves every link of
/// every other channel's link directory as it was.
pub proof fn channel_links_leave_other_channels_alone(
    table: Map<Seq<char>, Seq<char>>,
    root: Seq<char>,
    links: Seq<LinkView>,
    channel: Seq<char>,
    other: Seq<char>,
    artifact: Seq<char>,
)
    requires
        forall|i: int|
            0 <= i < links.len() ==> (#[trigger] links[i]).dir == toolchain_dir_of(root, channel)
                && slash_free(links[i].name),
        other != channel,
        slash_free(artifact),
    ensures
        ({
            let path = toolchain_link_of(root, other, artifact);
            let after = publish_all(table, links);
            &&& after.contains_key(path) <==> table.contains_key(path)
            &&& table.contains_key(path) ==> after[path] == table[path]
        }),
    decreases links.len(),
{
    if links.len() > 0 {
        let link = links.last();
        let front = links.drop_last();
        assert forall|i: int| 0 <= i < front.len() implies (#[trigger] front[i]).dir
            == toolchain_dir_of(root, channel) && slash_free(front[i].name) by {
            assert(front[i] == links[i]);
        }
        channel_links_leave_other_channels_alone(table, root, front, channel, other, artifact);
        publish_link_effect(publish_all(table, front), link);
        let hidden = seq!['.'] + link.name;
        assert(slash_free(hidden)) by {
            assert forall|i: int| 0 <= i < hidden.len() implies hidden[i] != '/' by {
                if i > 0 {
                    assert(hidden[i] == link.name[i - 1]);
                }
            }
        }
        let path = toolchain_link_of(root, other, artifact);
        if link.path() == path {
            toolchain_links_differ(root, channel, link.name, other, artifact);
        }
        if link.staging() == path {
            toolchain_links_differ(root, channel, hidden, other, artifact);
        }
    }
}

/// The links that publish binaries for a channel lie in that channel's
/// link directory, under names without a separator.
pub proof fn channel_links_lie_in_channel(
    root: Seq<char>,
    channel: Seq<char>,
    artifacts: Seq<Seq<char>>,
)
    ensures
        forall|i: int|
            0 <= i < channel_links_of(root, channel, artifacts).len() ==> (
            #[trigger] channel_links_of(root, channel, artifacts)[i]).dir == toolchain_dir_of(
                root,
                channel,
            ) && slash_free(channel_links_of(root, channel, artifacts)[i].name),
{
    assert forall|i: int| 0 <= i < channel_links_of(root, channel, artifacts).len() implies (
    #[trigger] channel_links_of(root, channel, artifacts)[i]).dir == toolchain_dir_of(
        root,
        channel,
    ) && slash_free(channel_links_of(root, channel, artifacts)[i].name) by {
        name_start_properties(artifacts[i]);
    }
}

/// A published link resolves to its target at the end, provided that no
/// link published after it bears its name or is staged under it.
pub proof fn published_link_resolves(
    table: Map<Seq<char>, Seq<char>>,
    links: Seq<LinkView>,
    i: int,
)
    requires
        0 <= i < links.len(),
        forall|j: int|
            i < j < links.len() ==> (#[trigger] links[j]).path() != links[i].path()
                && links[j].staging() != links[i].path(),
    ensures
        publish_all(table, links).contains_key(links[i].path()),
        publish_all(table, links)[links[i].path()] == links[i].target,
    decreases links.len(),
{
    let front = links.drop_last();
    publish_link_effect(publish_all(table, front), links.last());
    if i < links.len() - 1 {
        assert(front[i] == links[i]);
        assert forall|j: int| i < j < front.len() implies (#[trigger] front[j]).path()
            != front[i].path() && front[j].staging() != front[i].path() by {
            assert(front[j] == links[j]);
        }
        published_link_resolves(table, front, i);
        assert(links[links.len() - 1].path() != links[i].path());
    }
}

/// What follows a common beginning is equal where the wholes are.
proof fn same_rest(start: Seq<char>, a: Seq<char>, b: Seq<char>)
    requires
        start + a == start + b,
    ensures
        a == b,
{
    let skip = start.len() as int;
    assert((start + a).len() == skip + a.len());
    assert((start + b).len() == skip + b.len());
    assert((start + a).subrange(skip, skip + a.len()) =~= a);
    assert((start + b).subrange(skip, skip + b.len()) =~= b);
}

/// The stable commands bear eight different names, none of them hidden.
pub proof fn stable_names_distinct()
    ensures
        stable_commands().len() == 8,
        forall|i: int, j: int|
            0 <= i < j < 8 ==> (#[trigger] stable_commands()[i]).1 != (
            #[trigger] stable_commands()[j]).1,
        forall|i: int| 0 <= i < 8 ==> (#[trigger] stable_commands()[i]).1.len() > 0,
        forall|i: int| 0 <= i < 8 ==> (#[trigger] stable_commands()[i]).1[0] == 's',
{
    reveal_strlit("sb-penvman");
    reveal_strlit("sb-compiler");
    reveal_strlit("sb-linker");
    reveal_strlit("sb-assembler");
    reveal_strlit("sb-emulator-cli");
    reveal_strlit("sb-emulator-tui");
    reveal_strlit("sb-builder");
    reveal_strlit("sb-objdump");
    let names = stable_commands();
    assert(names[0].1.len() == 10 && names[1].1.len() == 11 && names[2].1.len() == 9);
    assert(names[3].1.len() == 12 && names[4].1.len() == 15 && names[5].1.len() == 15);
    assert(names[6].1.len() == 10 && names[7].1.len() == 10);
    assert(names[0].1[3] == 'p' && names[6].1[3] == 'b' && names[7].1[3] == 'o');
    assert(names[4].1[12] == 'c' && names[5].1[12] == 't');
    assert(names[0].1[0] == 's' && names[1].1[0] == 's' && names[2].1[0] == 's');
    assert(names[3].1[0] == 's' && names[4].1[0] == 's' && names[5].1[0] == 's');
    assert(names[6].1[0] == 's' && names[7].1[0] == 's');
}

/// Once a channel has been made the active one, every stable command
/// leads to its binary in that channel's link directory.
pub proof fn activation_points_at_channel(
    table: Map<Seq<char>, Seq<char>>,
    root: Seq<char>,
    active: Seq<char>,
    i: int,
)
    requires
        0 <= i < stable_commands().len(),
    ensures
        ({
            let after = publish_all(table, activation_links_of(root, active));
            let path = bin_link_of(root, stable_commands()[i].1);
            &&& after.contains_key(path)
            &&& after[path] == toolchain_link_of(root, active, stable_commands()[i].0)
        }),
{
    stable_names_distinct();
    let links = activation_links_of(root, active);
    let start = bin_dir_of(root) + seq!['/'];
    assert forall|j: int| i < j < links.len() implies (#[trigger] links[j]).path()
        != links[i].path() && links[j].staging() != links[i].path() by {
        let mine = stable_commands()[i].1;
        let theirs = stable_commands()[j].1;
        let hidden = seq!['.'] + theirs;
        assert(links[i].path() =~= start + mine);
        assert(links[j].path() =~= start + theirs);
        assert(links[j].staging() =~= start + hidden);
        if links[j].path() == links[i].path() {
            same_rest(start, theirs, mine);
        }
        if links[j].staging() == links[i].path() {
            same_rest(start, hidden, mine);
            assert(hidden[0] == '.');
        }
    }
    published_link_resolves(table, links, i);
}

} // verus!
