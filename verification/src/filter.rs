//! The filter that every entry of a walk passes: exclusion rules and
//! hidden names.

use crate::exclude::ExcludeMatcher;
use crate::paths::{final_component, final_component_bounds};
use crate::text::{chars_of, contains, occurs_in};
use vstd::prelude::*;

verus! {

/// The lower-case form of a text, as `str::to_lowercase` computes it.
pub uninterp spec fn lowercased(s: Seq<char>) -> Seq<char>;

/// `str::to_lowercase` returns the lower-case equivalent of a string slice,
/// by the Unicode rules for lower case; [`lowercased`] stands for it.
pub assume_specification[ str::to_lowercase ](s: &str) -> (out: String)
    ensures
        out@ == lowercased(s@),
;

/// One entry met during a walk: a path, how deep below the walk's root it
/// lies, and what kind of thing it is.
#[derive(Debug, Clone)]
pub struct Entry {
    /// The path of the entry.
    pub path: String,
    /// The number of directories between the walk's root and the entry;
    /// the root itself has depth zero.
    pub depth: usize,
    /// Whether the path is a directory.
    pub is_dir: bool,
    /// Whether the path is a regular file.
    pub is_file: bool,
}

/// An entry as a mathematical value.
pub struct EntryView {
    pub path: Seq<char>,
    pub depth: nat,
    pub is_dir: bool,
    pub is_file: bool,
}

impl View for Entry {
    type V = EntryView;

    open spec fn view(&self) -> EntryView {
        EntryView {
            path: self.path@,
            depth: self.depth as nat,
            is_dir: self.is_dir,
            is_file: self.is_file,
        }
    }
}

/// Whether the name of `path` marks it as hidden: its final component
/// begins with a dot.
pub open spec fn hidden(path: Seq<char>) -> bool {
    final_component(path).len() > 0 && final_component(path)[0] == '.'
}

/// Whether the filter lets an entry pass: the rules do not exclude it, and
/// it is not hidden while hidden entries are skipped.
pub open spec fn admitted(matcher: ExcludeMatcher, skip_hidden: bool, entry: EntryView) -> bool {
    !matcher.excludes(entry.path, entry.is_dir) && !(skip_hidden && hidden(entry.path))
}

/// Whether some pattern occurs in `path`, letter case aside.
pub open spec fn matches_any(path: Seq<char>, patterns: Seq<Seq<char>>) -> bool {
    exists|i: int|
        0 <= i < patterns.len() && occurs_in(lowercased(path), lowercased(#[trigger] patterns[i]))
}

/// Tells whether `path` holds one of `patterns` as a substring, ignoring
/// letter case.
pub fn should_exclude(path: &str, patterns: &[String]) -> (b: bool)
    ensures
        b == matches_any(path@, patterns.deep_view()),
{
    if patterns.len() == 0 {
        return false;
    }
    let lower = path.to_lowercase();
    let hay = chars_of(lower.as_str());
    let mut i: usize = 0;
    while i < patterns.len()
        invariant
            i <= patterns.len(),
            hay@ == lowercased(path@),
            forall|k: int|
                0 <= k < i ==> !occurs_in(
                    lowercased(path@),
                    lowercased(#[trigger] patterns.deep_view()[k]),
                ),
        decreases patterns.len() - i,
    {
        let pattern = patterns[i].as_str().to_lowercase();
        let needle = chars_of(pattern.as_str());
        assert(patterns.deep_view()[i as int] == patterns[i as int]@);
        if contains(&hay, &needle) {
            return true;
        }
        i += 1;
    }
    false
}

/// Tells whether the entry is hidden: whether its name begins with a dot.
pub fn is_hidden(entry: &Entry) -> (b: bool)
    ensures
        b == hidden(entry@.path),
{
    let v = chars_of(entry.path.as_str());
    let (start, end) = final_component_bounds(&v);
    if start < end {
        assert(v@.subrange(start as int, end as int)[0] == v@[start as int]);
        v[start] == '.'
    } else {
        false
    }
}

/// Decides whether a walk takes an entry: not if the rules exclude it, and
/// not if it is hidden while `skip_hidden` is set. An entry that is not
/// taken is not descended into.
pub fn admits(entry: &Entry, matcher: &ExcludeMatcher, skip_hidden: bool) -> (b: bool)
    ensures
        b == admitted(*matcher, skip_hidden, entry@),
{
    if matcher.is_excluded(entry.path.as_str(), entry.is_dir) {
        return false;
    }
    !(skip_hidden && is_hidden(entry))
}

} // verus!
