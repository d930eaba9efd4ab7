//! Where things live below the install root.
//!
//! All locations are plain functions of the install root, the channel and
//! the repository name. Nothing here touches the file system.

use vstd::prelude::*;
use crate::text::{join2, join3, joined_paths_differ, slash_free, texts};

verus! {

/// The install root that belongs to a home directory.
pub open spec fn root_under(home: Seq<char>) -> Seq<char> {
    home + "/.shinrabansyo"@
}

/// The directory of the stable, channel-independent links.
pub open spec fn bin_dir_of(root: Seq<char>) -> Seq<char> {
    root + "/bin"@
}

/// The directory that holds the working copies and their build markers.
pub open spec fn repos_dir_of(root: Seq<char>) -> Seq<char> {
    root + "/repos"@
}

/// The directory that holds one link directory per channel.
pub open spec fn toolchains_dir_of(root: Seq<char>) -> Seq<char> {
    root + "/toolchains"@
}

/// The file that records the active channel.
pub open spec fn config_file_of(root: Seq<char>) -> Seq<char> {
    root + "/config"@
}

/// The shell snippet that puts the stable links on the search path.
pub open spec fn env_file_of(root: Seq<char>) -> Seq<char> {
    root + "/env"@
}

/// The working copy of the repository `name`.
pub open spec fn repo_dir_of(root: Seq<char>, name: Seq<char>) -> Seq<char> {
    repos_dir_of(root) + seq!['/'] + name
}

/// The build marker of the repository `name`.
pub open spec fn marker_file_of(root: Seq<char>, name: Seq<char>) -> Seq<char> {
    repo_dir_of(root, name) + ".head"@
}

/// The directory into which the repository `name` puts its release build.
pub open spec fn release_dir_of(root: Seq<char>, name: Seq<char>) -> Seq<char> {
    repo_dir_of(root, name) + "/target/release"@
}

/// The link directory of `channel`.
pub open spec fn toolchain_dir_of(root: Seq<char>, channel: Seq<char>) -> Seq<char> {
    toolchains_dir_of(root) + seq!['/'] + channel
}

/// The link named `artifact` in the link directory of `channel`.
pub open spec fn toolchain_link_of(root: Seq<char>, channel: Seq<char>, artifact: Seq<char>) -> Seq<
    char,
> {
    toolchain_dir_of(root, channel) + seq!['/'] + artifact
}

/// The stable link named `command`.
pub open spec fn bin_link_of(root: Seq<char>, command: Seq<char>) -> Seq<char> {
    bin_dir_of(root) + seq!['/'] + command
}

/// The address from which the repository `name` is cloned.
pub open spec fn remote_url_of(name: Seq<char>) -> Seq<char> {
    "https://github.com/shinrabansyo/"@ + name
}

/// The directories that an install consists of, in the order in which
/// they are made.
pub open spec fn directories_of(root: Seq<char>) -> Seq<Seq<char>> {
    seq![bin_dir_of(root), repos_dir_of(root), toolchains_dir_of(root)]
}

/// The shell snippet that puts the stable links of the install under
/// `$HOME` on the search path, unless they are there already.
pub const ENV_SNIPPET: &'static str =
    "case \":${PATH}:\" in *:\"$HOME/.shinrabansyo/bin\":*) ;; *) export PATH=\"$HOME/.shinrabansyo/bin:$PATH\" ;; esac";

/// The install root, from which every other location is derived.
#[derive(Debug, PartialEq, Eq)]
pub struct PathLayout {
    root: String,
}

impl View for PathLayout {
    type V = Seq<char>;

    closed spec fn view(&self) -> Seq<char> {
        self.root@
    }
}

impl PathLayout {
    /// A layout rooted at `root`.
    pub fn new(root: &str) -> (layout: PathLayout)
        ensures
            layout@ == root@,
    {
        PathLayout { root: root.to_owned() }
    }

    /// The layout of the install directory that belongs to `home`.
    pub fn under_home(home: &str) -> (layout: PathLayout)
        ensures
            layout@ == root_under(home@),
    {
        PathLayout { root: join2(home, "/.shinrabansyo") }
    }

    /// The install root itself.
    pub fn root(&self) -> (path: String)
        ensures
            path@ == self@,
    {
        self.root.clone()
    }

    /// The directories that an install consists of.
    pub fn directories(&self) -> (dirs: Vec<String>)
        ensures
            texts(dirs@) == directories_of(self@),
    {
        let mut dirs: Vec<String> = Vec::new();
        dirs.push(self.bin_dir());
        dirs.push(self.repos_dir());
        dirs.push(self.toolchains_dir());
        assert(texts(dirs@) =~= directories_of(self@));
        dirs
    }

    /// The directory of the stable links.
    pub fn bin_dir(&self) -> (path: String)
        ensures
            path@ == bin_dir_of(self@),
    {
        join2(self.root.as_str(), "/bin")
    }

    /// The directory of the working copies and their build markers.
    pub fn repos_dir(&self) -> (path: String)
        ensures
            path@ == repos_dir_of(self@),
    {
        join2(self.root.as_str(), "/repos")
    }

    /// The directory of the channels' link directories.
    pub fn toolchains_dir(&self) -> (path: String)
        ensures
            path@ == toolchains_dir_of(self@),
    {
        join2(self.root.as_str(), "/toolchains")
    }

    /// The file that records the active channel.
    pub fn config_file(&self) -> (path: String)
        ensures
            path@ == config_file_of(self@),
    {
        join2(self.root.as_str(), "/config")
    }

    /// The file that holds the shell snippet.
    pub fn env_file(&self) -> (path: String)
        ensures
            path@ == env_file_of(self@),
    {
        join2(self.root.as_str(), "/env")
    }

    /// The working copy of the repository `name`.
    pub fn repo_dir(&self, name: &str) -> (path: String)
        ensures
            path@ == repo_dir_of(self@, name@),
    {
        let repos = self.repos_dir();
        join_path(repos.as_str(), name)
    }

    /// The build marker of the repository `name`.
    pub fn marker_file(&self, name: &str) -> (path: String)
        ensures
            path@ == marker_file_of(self@, name@),
    {
        let repo = self.repo_dir(name);
        join2(repo.as_str(), ".head")
    }

    /// The directory into which the repository `name` puts its release build.
    pub fn release_dir(&self, name: &str) -> (path: String)
        ensures
            path@ == release_dir_of(self@, name@),
    {
        let repo = self.repo_dir(name);
        join2(repo.as_str(), "/target/release")
    }

    /// The link directory of `channel`.
    pub fn toolchain_dir(&self, channel: &str) -> (path: String)
        ensures
            path@ == toolchain_dir_of(self@, channel@),
    {
        let toolchains = self.toolchains_dir();
        join_path(toolchains.as_str(), channel)
    }

    /// The link named `artifact` in the link directory of `channel`.
    pub fn toolchain_link(&self, channel: &str, artifact: &str) -> (path: String)
        ensures
            path@ == toolchain_link_of(self@, channel@, artifact@),
    {
        let dir = self.toolchain_dir(channel);
        join_path(dir.as_str(), artifact)
    }

    /// The stable link named `command`.
    pub fn bin_link(&self, command: &str) -> (path: String)
        ensures
            path@ == bin_link_of(self@, command@),
    {
        let bin = self.bin_dir();
        join_path(bin.as_str(), command)
    }
}

/// The address from which the repository `name` is cloned.
pub fn remote_url(name: &str) -> (url: String)
    ensures
        url@ == remote_url_of(name@),
{
    join2("https://github.com/shinrabansyo/", name)
}

/// The entry `name` of the directory `dir`.
pub fn join_path(dir: &str, name: &str) -> (path: String)
    ensures
        path@ == dir@ + seq!['/'] + name@,
{
    proof {
        reveal_strlit("/");
        assert("/"@ =~= seq!['/']);
    }
    join3(dir, "/", name)
}

/// The link directories of two channels share no link: a link is found
/// under one channel and one name only.
pub proof fn toolchain_links_differ(
    root: Seq<char>,
    c1: Seq<char>,
    n1: Seq<char>,
    c2: Seq<char>,
    n2: Seq<char>,
)
    requires
        slash_free(n1),
        slash_free(n2),
        toolchain_link_of(root, c1, n1) == toolchain_link_of(root, c2, n2),
    ensures
        c1 == c2,
        n1 == n2,
{
    joined_paths_differ(toolchain_dir_of(root, c1), n1, toolchain_dir_of(root, c2), n2);
    let skip = (toolchains_dir_of(root) + seq!['/']).len() as int;
    assert(toolchain_dir_of(root, c1).subrange(skip, skip + c1.len()) =~= c1);
    assert(toolchain_dir_of(root, c2).subrange(skip, skip + c2.len()) =~= c2);
}

/// A stable link never lies in the link directory of a channel.
pub proof fn bin_link_is_no_toolchain_link(
    root: Seq<char>,
    command: Seq<char>,
    channel: Seq<char>,
    artifact: Seq<char>,
)
    ensures
        bin_link_of(root, command) != toolchain_link_of(root, channel, artifact),
{
    reveal_strlit("/bin");
    reveal_strlit("/toolchains");
    let at = root.len() as int + 1;
    assert(bin_link_of(root, command)[at] == 'b');
    assert(toolchain_link_of(root, channel, artifact)[at] == 't');
}

/// The build markers of two repositories are two files.
pub proof fn marker_files_differ(root: Seq<char>, n1: Seq<char>, n2: Seq<char>)
    requires
        marker_file_of(root, n1) == marker_file_of(root, n2),
    ensures
        n1 == n2,
{
    let skip = (repos_dir_of(root) + seq!['/']).len() as int;
    let tail = ".head"@;
    let m1 = marker_file_of(root, n1);
    let m2 = marker_file_of(root, n2);
    assert(m1.len() == skip + n1.len() + tail.len());
    assert(m2.len() == skip + n2.len() + tail.len());
    assert(m1.subrange(skip, skip + n1.len()) =~= n1);
    assert(m2.subrange(skip, skip + n2.len()) =~= n2);
}

} // verus!
