//! The read-only view of the application source tree that detection runs
//! against.
//!
//! The caller walks the real tree once and hands over every path (relative
//! to the tree root, `/`-separated) together with its text. Detection then
//! works on this snapshot alone, so one generation sees one consistent
//! tree and never touches the filesystem itself.

use vstd::prelude::*;

use crate::strutil::{ends_with, has_suffix, str_eq, opt_chars};

verus! {

/// One file of the snapshot: its relative path and its text.
#[derive(Debug)]
pub struct SourceFile {
    pub path: String,
    pub contents: String,
}

/// The snapshot of the source tree, in the stable order the walk produced.
#[derive(Debug)]
pub struct SourceTree {
    pub files: Vec<SourceFile>,
}

/// Some file of the tree has exactly this path.
pub open spec fn tree_has_file(files: Seq<SourceFile>, path: Seq<char>) -> bool {
    exists|i: int| 0 <= i < files.len() && files[i].path@ == path
}

/// The text of the first file with this path.
pub open spec fn tree_file_contents(files: Seq<SourceFile>, path: Seq<char>) -> Option<
    Seq<char>,
>
    decreases files.len(),
{
    if files.len() == 0 {
        None
    } else if files.first().path@ == path {
        Some(files.first().contents@)
    } else {
        tree_file_contents(files.drop_first(), path)
    }
}

/// Whether `text` matches `pattern`, for the regular-expression engine the
/// detection step consults. The outcome depends on the two strings alone
/// (and is `false` when the pattern itself is malformed).
pub uninterp spec fn regex_matches(pattern: Seq<char>, text: Seq<char>) -> bool;

/// Some file with this path suffix has text matching `pattern`.
pub open spec fn tree_has_match(
    files: Seq<SourceFile>,
    pattern: Seq<char>,
    suffix: Seq<char>,
) -> bool {
    exists|i: int|
        0 <= i < files.len() && has_suffix(files[i].path@, suffix) && regex_matches(
            pattern,
            files[i].contents@,
        )
}

/// Relies on `regex::Regex::new` and `regex::Regex::is_match`: whether the
/// text matches is a deterministic function of the pattern and the text;
/// a pattern that does not compile matches nothing.
#[verifier::external_body]
fn regex_is_match(pattern: &str, text: &str) -> (r: bool)
    ensures
        r == regex_matches(pattern@, text@),
{
    match regex::Regex::new(pattern) {
        Ok(re) => re.is_match(text),
        Err(_) => false,
    }
}

impl SourceTree {
    pub fn new(files: Vec<SourceFile>) -> (t: SourceTree)
        ensures
            t.files@ == files@,
    {
        SourceTree { files }
    }

    /// Does the tree contain a file with exactly this path?
    pub fn includes_file(&self, path: &str) -> (r: bool)
        ensures
            r == tree_has_file(self.files@, path@),
    {
        let n = self.files.len();
        let mut i: usize = 0;
        while i < n
            invariant
                n == self.files@.len(),
                i <= n,
                forall|j: int| 0 <= j < i ==> self.files@[j].path@ != path@,
            decreases n - i,
        {
            if str_eq(self.files[i].path.as_str(), path) {
                return true;
            }
            i += 1;
        }
        false
    }

    /// The text of the first file with this path.
    pub fn read_file(&self, path: &str) -> (r: Option<String>)
        ensures
            opt_chars(r) == tree_file_contents(self.files@, path@),
    {
        let n = self.files.len();
        proof {
            assert(self.files@.skip(0) =~= self.files@);
        }
        let mut i: usize = 0;
        while i < n
            invariant
                n == self.files@.len(),
                i <= n,
                tree_file_contents(self.files@, path@) == tree_file_contents(
                    self.files@.skip(i as int),
                    path@,
                ),
            decreases n - i,
        {
            proof {
                assert(self.files@.skip(i as int).first() == self.files@[i as int]);
                assert(self.files@.skip(i as int).drop_first() =~= self.files@.skip(i + 1));
            }
            if str_eq(self.files[i].path.as_str(), path) {
                return Some(self.files[i].contents.clone());
            }
            i += 1;
        }
        proof {
            assert(self.files@.skip(n as int) =~= Seq::<SourceFile>::empty());
        }
        None
    }

    /// Does any file whose path ends in `path_suffix` have text matching
    /// the regular expression `pattern`?
    pub fn find_match(&self, pattern: &str, path_suffix: &str) -> (r: bool)
        ensures
            r == tree_has_match(self.files@, pattern@, path_suffix@),
    {
        let n = self.files.len();
        let mut i: usize = 0;
        while i < n
            invariant
                n == self.files@.len(),
                i <= n,
                forall|j: int|
                    0 <= j < i ==> !(has_suffix(self.files@[j].path@, path_suffix@)
                        && regex_matches(pattern@, self.files@[j].contents@)),
            decreases n - i,
        {
            if ends_with(self.files[i].path.as_str(), path_suffix) {
                if regex_is_match(pattern, self.files[i].contents.as_str()) {
                    return true;
                }
            }
            i += 1;
        }
        false
    }
}

} // verus!
