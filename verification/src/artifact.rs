//! Which files of a release directory are publishable binaries.
//!
//! The caller lists the directory; the rule that picks the binaries out of
//! the listing is here.

use vstd::prelude::*;
use crate::layout::join_path;
use crate::text::{contains_text, has_infix, has_prefix, starts_with, texts};

verus! {

/// One entry of a directory listing, as the caller found it.
#[derive(Debug, PartialEq, Eq)]
pub struct DirEntry {
    /// The entry's file name, without its directory.
    pub name: String,
    /// Whether the entry is a regular file.
    pub is_file: bool,
    /// Whether the entry may be executed.
    pub executable: bool,
}

/// The mathematical value of a [`DirEntry`].
pub struct DirEntryView {
    pub name: Seq<char>,
    pub is_file: bool,
    pub executable: bool,
}

impl View for DirEntry {
    type V = DirEntryView;

    open spec fn view(&self) -> DirEntryView {
        DirEntryView { name: self.name@, is_file: self.is_file, executable: self.executable }
    }
}

/// A file name follows the naming convention of toolchain binaries: it
/// begins with the repository's binary prefix and does not name a shared
/// library.
pub open spec fn publishable_name(glob: Seq<char>, name: Seq<char>) -> bool {
    starts_with(name, glob) && !contains_text(name, ".so"@)
}

/// An entry is a publishable binary: a regular, executable file whose name
/// follows the convention.
pub open spec fn publishable(glob: Seq<char>, entry: DirEntryView) -> bool {
    entry.is_file && entry.executable && publishable_name(glob, entry.name)
}

/// The path under which a publishable entry of `dir` is reported; `None`
/// for every other entry.
pub open spec fn artifact_of(dir: Seq<char>, glob: Seq<char>, entry: DirEntryView) -> Option<
    Seq<char>,
> {
    if publishable(glob, entry) {
        Some(dir + seq!['/'] + entry.name)
    } else {
        None
    }
}

/// `artifact_of` as a function of the entry alone.
pub open spec fn artifact_picker(dir: Seq<char>, glob: Seq<char>) -> spec_fn(DirEntryView) -> Option<
    Seq<char>,
> {
    |entry: DirEntryView| artifact_of(dir, glob, entry)
}

/// The publishable binaries of a listing of `dir`: the paths of the
/// publishable entries, in the order of the listing.
pub open spec fn artifacts_of(dir: Seq<char>, glob: Seq<char>, entries: Seq<DirEntryView>) -> Seq<
    Seq<char>,
> {
    entries.filter_map(artifact_picker(dir, glob))
}

/// The views of a directory listing.
pub open spec fn entry_views(entries: Seq<DirEntry>) -> Seq<DirEntryView> {
    entries.map_values(|entry: DirEntry| entry@)
}

/// Whether `entry` is a publishable binary of a repository whose binary
/// prefix is `glob`.
pub fn is_publishable(glob: &str, entry: &DirEntry) -> (keep: bool)
    ensures
        keep == publishable(glob@, entry@),
{
    entry.is_file && entry.executable && has_prefix(entry.name.as_str(), glob) && !has_infix(
        entry.name.as_str(),
        ".so",
    )
}

/// The publishable binaries among `entries`, the listing of `dir`, as paths
/// and in the order of the listing. An empty result is a valid one.
pub fn select_artifacts(dir: &str, glob: &str, entries: &Vec<DirEntry>) -> (paths: Vec<String>)
    ensures
        texts(paths@) == artifacts_of(dir@, glob@, entry_views(entries@)),
{
    let mut paths: Vec<String> = Vec::new();
    let ghost pick = artifact_picker(dir@, glob@);
    let ghost listing = entry_views(entries@);
    let mut i: usize = 0;
    assert(texts(paths@) =~= listing.take(0).filter_map(pick));
    while i < entries.len()
        invariant
            i <= entries.len(),
            pick == artifact_picker(dir@, glob@),
            listing == entry_views(entries@),
            texts(paths@) == listing.take(i as int).filter_map(pick),
        decreases entries.len() - i,
    {
        let ghost before = paths@;
        proof {
            listing.lemma_filter_map_take_succ(pick, i as int);
        }
        if is_publishable(glob, &entries[i]) {
            let path = join_path(dir, entries[i].name.as_str());
            paths.push(path);
            assert(texts(paths@) =~= texts(before) + seq![path@]);
        }
        i += 1;
    }
    assert(listing.take(entries.len() as int) =~= listing);
    paths
}

} // verus!
