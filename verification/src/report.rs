//! The words in which progress and results are reported.
//!
//! Only the wording is settled here; where and how the words are shown is
//! the caller's business.

use vstd::prelude::*;
use crate::pipeline::{Action, ActionView, Outcome, Stage};
use crate::text::{chars_of, join2, join3};

verus! {

/// `n` spaces.
pub open spec fn spaces(n: nat) -> Seq<char> {
    Seq::new(n, |i: int| ' ')
}

/// `text`, followed by as many spaces as bring it to `width` characters;
/// `text` itself where it is that long already.
pub open spec fn padded(text: Seq<char>, width: nat) -> Seq<char> {
    if text.len() >= width {
        text
    } else {
        text + spaces((width - text.len()) as nat)
    }
}

/// The phase that begins with `action`, if one does.
pub open spec fn phase_of(action: ActionView) -> Option<Seq<char>> {
    match action {
        ActionView::Locate { dir } => Some("checking updates"@),
        ActionView::Build { dir, release_dir } => Some("building"@),
        _ => None,
    }
}

/// How an update that ended in `stage` is summed up, `version` being the
/// version of what was built; `None` where it has not ended or has failed.
pub open spec fn verdict_of(stage: Stage, version: Seq<char>) -> Option<Seq<char>> {
    match stage {
        Stage::Done(Outcome::Skipped) => Some("Skipped"@),
        Stage::Done(Outcome::Updated) => Some("Ok (version: "@ + version + ")"@),
        _ => None,
    }
}

/// The line that opens the report on the repository `name`.
pub open spec fn installing_line_of(name: Seq<char>) -> Seq<char> {
    "Installing "@ + padded(name, 15) + "... "@
}

/// The line of the summary that shows the repository `name` at `version`.
pub open spec fn summary_line_of(name: Seq<char>, version: Seq<char>) -> Seq<char> {
    "    * "@ + padded(name, 12) + " : "@ + version
}

/// `text`, filled up with spaces to `width` characters.
pub fn pad_right(text: &str, width: usize) -> (out: String)
    ensures
        out@ == padded(text@, width as nat),
{
    let len = chars_of(text).len();
    let mut out = text.to_owned();
    if len >= width {
        return out;
    }
    assert(out@ =~= text@ + spaces(0));
    let mut n: usize = len;
    while n < width
        invariant
            len <= n <= width,
            len == text@.len(),
            out@ == text@ + spaces((n - len) as nat),
        decreases width - n,
    {
        proof {
            reveal_strlit(" ");
        }
        out.append(" ");
        n += 1;
        assert(out@ =~= text@ + spaces((n - len) as nat));
    }
    out
}

/// The name of the phase that begins with `action`: `checking updates`
/// where a repository is taken up, `building` where its build starts.
pub fn phase(action: &Action) -> (name: Option<String>)
    ensures
        match phase_of(action@) {
            Some(text) => name is Some && name->Some_0@ == text,
            None => name is None,
        },
{
    match action {
        Action::Locate { .. } => Some("checking updates".to_owned()),
        Action::Build { .. } => Some("building".to_owned()),
        _ => None,
    }
}

/// The words that sum up an update that ended in `stage`: `Skipped`, or
/// `Ok` with the version of what was built.
pub fn verdict(stage: Stage, version: &str) -> (words: Option<String>)
    ensures
        match verdict_of(stage, version@) {
            Some(text) => words is Some && words->Some_0@ == text,
            None => words is None,
        },
{
    match stage {
        Stage::Done(Outcome::Skipped) => Some("Skipped".to_owned()),
        Stage::Done(Outcome::Updated) => Some(join3("Ok (version: ", version, ")")),
        _ => None,
    }
}

/// The line that opens the report on the repository `name`.
pub fn installing_line(name: &str) -> (line: String)
    ensures
        line@ == installing_line_of(name@),
{
    let cell = pad_right(name, 15);
    join3("Installing ", cell.as_str(), "... ")
}

/// A status, filled up to the width of the status column.
pub fn status_cell(status: &str) -> (cell: String)
    ensures
        cell@ == padded(status@, 20),
{
    pad_right(status, 20)
}

/// The line of the summary that shows the repository `name` at `version`.
pub fn summary_line(name: &str, version: &str) -> (line: String)
    ensures
        line@ == summary_line_of(name@, version@),
{
    let cell = pad_right(name, 12);
    let mut line = join3("    * ", cell.as_str(), " : ");
    line.append(version);
    line
}

} // verus!
