//! Character-level helpers on strings: comparison, searching and the
//! splitting of a path into directory and file name.
//!
//! Every string is modelled by its view, the sequence of its characters.

use vstd::prelude::*;

verus! {

/// The views of a list of strings.
pub open spec fn texts(list: Seq<String>) -> Seq<Seq<char>> {
    list.map_values(|s: String| s@)
}

/// `pat` occurs in `s` starting at index `at`.
pub open spec fn occurs_at(s: Seq<char>, pat: Seq<char>, at: int) -> bool {
    0 <= at && at + pat.len() <= s.len() && s.subrange(at, at + pat.len()) == pat
}

/// `pat` is a prefix of `s`.
pub open spec fn starts_with(s: Seq<char>, pat: Seq<char>) -> bool {
    occurs_at(s, pat, 0)
}

/// `pat` occurs somewhere in `s`.
pub open spec fn contains_text(s: Seq<char>, pat: Seq<char>) -> bool {
    exists|at: int| occurs_at(s, pat, at)
}

/// No character of `s` is a path separator.
pub open spec fn slash_free(s: Seq<char>) -> bool {
    forall|i: int| 0 <= i < s.len() ==> s[i] != '/'
}

/// The index just behind the last path separator of `s`, or 0 where `s`
/// holds none: the place where the file name of a path begins.
pub open spec fn name_start(s: Seq<char>) -> int
    decreases s.len(),
{
    if s.len() == 0 {
        0
    } else if s.last() == '/' {
        s.len() as int
    } else {
        name_start(s.drop_last())
    }
}

/// The file name of a path: what follows its last separator.
pub open spec fn base_name(s: Seq<char>) -> Seq<char> {
    s.subrange(name_start(s), s.len() as int)
}

/// The directory part of a path: what precedes its last separator, and
/// nothing where it holds none.
pub open spec fn dir_name(s: Seq<char>) -> Seq<char> {
    if name_start(s) == 0 {
        Seq::empty()
    } else {
        s.subrange(0, name_start(s) - 1)
    }
}

/// `name_start` lies inside the string, nothing behind it is a separator,
/// and it is either 0 or preceded by one.
pub proof fn name_start_properties(s: Seq<char>)
    ensures
        0 <= name_start(s) <= s.len(),
        forall|i: int| name_start(s) <= i < s.len() ==> s[i] != '/',
        name_start(s) > 0 ==> s[name_start(s) - 1] == '/',
        slash_free(base_name(s)),
    decreases s.len(),
{
    if s.len() > 0 && s.last() != '/' {
        let front = s.drop_last();
        name_start_properties(front);
        assert forall|i: int| name_start(s) <= i < s.len() implies s[i] != '/' by {
            if i < front.len() {
                assert(front[i] == s[i]);
            }
        }
        if name_start(s) > 0 {
            assert(front[name_start(s) - 1] == s[name_start(s) - 1]);
        }
    }
}

/// An index with the three properties of `name_start` is `name_start`.
pub proof fn name_start_unique(s: Seq<char>, k: int)
    requires
        0 <= k <= s.len(),
        forall|i: int| k <= i < s.len() ==> s[i] != '/',
        k > 0 ==> s[k - 1] == '/',
    ensures
        name_start(s) == k,
    decreases s.len(),
{
    if s.len() > 0 {
        if s.last() == '/' {
            assert(k == s.len());
        } else {
            let front = s.drop_last();
            assert(k < s.len()) by {
                if k == s.len() {
                    assert(s[k - 1] == s.last());
                }
            }
            assert forall|i: int| k <= i < front.len() implies front[i] != '/' by {
                assert(front[i] == s[i]);
            }
            if k > 0 {
                assert(front[k - 1] == s[k - 1]);
            }
            name_start_unique(front, k);
        }
    }
}

/// A file name appended to a directory is found again by `base_name`, and
/// the directory by `dir_name`.
pub proof fn base_name_of_joined(dir: Seq<char>, name: Seq<char>)
    requires
        slash_free(name),
    ensures
        base_name(dir + seq!['/'] + name) == name,
        dir_name(dir + seq!['/'] + name) == dir,
{
    let path = dir + seq!['/'] + name;
    let k = dir.len() + 1;
    assert forall|i: int| k <= i < path.len() implies path[i] != '/' by {
        assert(path[i] == name[i - k]);
    }
    assert(path[k - 1] == '/');
    name_start_unique(path, k as int);
    assert(path.subrange(k as int, path.len() as int) =~= name);
    assert(path.subrange(0, k - 1) =~= dir);
}

/// Two paths made of a directory and a separator-free name are equal only
/// where both parts are.
pub proof fn joined_paths_differ(d1: Seq<char>, n1: Seq<char>, d2: Seq<char>, n2: Seq<char>)
    requires
        slash_free(n1),
        slash_free(n2),
        d1 + seq!['/'] + n1 == d2 + seq!['/'] + n2,
    ensures
        d1 == d2,
        n1 == n2,
{
    base_name_of_joined(d1, n1);
    base_name_of_joined(d2, n2);
}

/// The characters of `s`, in order.
pub fn chars_of(s: &str) -> (out: Vec<char>)
    ensures
        out@ == s@,
{
    let mut out: Vec<char> = Vec::new();
    for c in it: s.chars()
        invariant
            it.seq() == s@,
            out@ == s@.take(it.index() as int),
    {
        out.push(c);
    }
    out
}

/// Whether two strings hold the same characters.
pub fn same_text(a: &str, b: &str) -> (same: bool)
    ensures
        same == (a@ == b@),
{
    a.to_owned() == b.to_owned()
}

/// Whether `pat` stands in `s` at index `at`.
fn matches_at(s: &Vec<char>, pat: &Vec<char>, at: usize) -> (hit: bool)
    requires
        at + pat.len() <= s.len(),
    ensures
        hit == occurs_at(s@, pat@, at as int),
{
    let mut j: usize = 0;
    while j < pat.len()
        invariant
            j <= pat.len(),
            at + pat.len() <= s.len(),
            forall|k: int| 0 <= k < j ==> s@[at + k] == pat@[k],
        decreases pat.len() - j,
    {
        if s[at + j] != pat[j] {
            assert(s@.subrange(at as int, at + pat.len())[j as int] == s@[at + j]);
            return false;
        }
        j += 1;
    }
    assert(s@.subrange(at as int, at + pat.len()) =~= pat@);
    true
}

/// Whether `s` begins with `pat`.
pub fn has_prefix(s: &str, pat: &str) -> (hit: bool)
    ensures
        hit == starts_with(s@, pat@),
{
    let text = chars_of(s);
    let wanted = chars_of(pat);
    if wanted.len() > text.len() {
        return false;
    }
    matches_at(&text, &wanted, 0)
}

/// Whether `pat` occurs anywhere in `s`.
pub fn has_infix(s: &str, pat: &str) -> (hit: bool)
    ensures
        hit == contains_text(s@, pat@),
{
    let text = chars_of(s);
    let wanted = chars_of(pat);
    if wanted.len() > text.len() {
        return false;
    }
    let last: usize = text.len() - wanted.len();
    let mut at: usize = 0;
    while at < last
        invariant
            at <= last,
            last + wanted.len() == text.len(),
            text@ == s@,
            wanted@ == pat@,
            forall|a: int| 0 <= a < at ==> !occurs_at(s@, pat@, a),
        decreases last - at,
    {
        if matches_at(&text, &wanted, at) {
            return true;
        }
        at += 1;
    }
    matches_at(&text, &wanted, last)
}

/// The file name of `path`: what follows its last separator.
pub fn file_name(path: &str) -> (name: String)
    ensures
        name@ == base_name(path@),
{
    let text = chars_of(path);
    let mut k: usize = text.len();
    while k > 0 && text[k - 1] != '/'
        invariant
            k <= text.len(),
            forall|i: int| k <= i < text.len() ==> text@[i] != '/',
        decreases k,
    {
        k -= 1;
    }
    proof {
        name_start_unique(text@, k as int);
    }
    path.substring_char(k, text.len()).to_owned()
}

/// `a` followed by `b`.
pub fn join2(a: &str, b: &str) -> (out: String)
    ensures
        out@ == a@ + b@,
{
    let mut out = a.to_owned();
    out.append(b);
    out
}

/// `a` followed by `b` and `c`.
pub fn join3(a: &str, b: &str, c: &str) -> (out: String)
    ensures
        out@ == a@ + b@ + c@,
{
    let mut out = a.to_owned();
    out.append(b);
    out.append(c);
    out
}

} // verus!
