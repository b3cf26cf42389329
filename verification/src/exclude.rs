//! Exclusion rules in gitignore syntax, compiled once and asked per path.

use crate::errors::PatternError;
use crate::text::{chars_of, lines, split_lines, string_of_range, trimmed_end};
use ignore::gitignore::{Gitignore, GitignoreBuilder};
use vstd::prelude::*;

verus! {

/// A compiled set of gitignore rules, as the `ignore` crate holds it.
#[verifier::external_type_specification]
#[verifier::external_body]
pub struct ExGitignore(Gitignore);

/// The rules collected so far, before they are compiled into a set.
#[verifier::external_type_specification]
#[verifier::external_body]
pub struct ExGitignoreBuilder(GitignoreBuilder);

/// The directory that the rules of a builder are relative to.
pub uninterp spec fn builder_root(b: GitignoreBuilder) -> Seq<char>;

/// The rules that a builder holds, in the order in which they were added.
pub uninterp spec fn builder_rules(b: GitignoreBuilder) -> Seq<Seq<char>>;

/// The directory that the rules of a compiled set are relative to.
pub uninterp spec fn matcher_root(g: Gitignore) -> Seq<char>;

/// The rules of a compiled set, in the order in which they were added.
pub uninterp spec fn matcher_rules(g: Gitignore) -> Seq<Seq<char>>;

/// Whether a single rule is a valid glob.
pub uninterp spec fn rule_compiles(rule: Seq<char>) -> bool;

/// Whether a list of valid rules compiles into one set.
pub uninterp spec fn rules_build(rules: Seq<Seq<char>>) -> bool;

/// Whether the rules, taken relative to `root`, ignore `path`: the last rule
/// that matches the path decides, and it ignores unless it is negated.
pub uninterp spec fn rules_ignore(
    root: Seq<char>,
    rules: Seq<Seq<char>>,
    path: Seq<char>,
    is_dir: bool,
) -> bool;

/// `root` without a leading `./`.
pub open spec fn without_dot_slash(root: Seq<char>) -> Seq<char> {
    if root.len() >= 2 && root[0] == '.' && root[1] == '/' {
        root.skip(2)
    } else {
        root
    }
}

/// The rule that a line states: the line without its trailing whitespace,
/// unless the line ends in an escaped space.
pub open spec fn rule_of(line: Seq<char>) -> Seq<char> {
    if line.len() >= 2 && line[line.len() - 2] == '\\' && line[line.len() - 1] == ' ' {
        line
    } else {
        trimmed_end(line)
    }
}

/// Whether a line states a rule: comments, which begin with `#`, and blank
/// lines state none.
pub open spec fn is_rule(line: Seq<char>) -> bool {
    !(line.len() > 0 && line[0] == '#') && rule_of(line).len() > 0
}

/// The rules that a list of lines states, in order.
pub open spec fn rules_of(lines: Seq<Seq<char>>) -> Seq<Seq<char>>
    decreases lines.len(),
{
    if lines.len() == 0 {
        Seq::empty()
    } else if is_rule(lines.last()) {
        rules_of(lines.drop_last()).push(rule_of(lines.last()))
    } else {
        rules_of(lines.drop_last())
    }
}

/// Whether every rule among the first `n` lines is a valid glob.
pub open spec fn all_compile(lines: Seq<Seq<char>>, n: int) -> bool {
    forall|i: int| 0 <= i < n && is_rule(#[trigger] lines[i]) ==> rule_compiles(rule_of(lines[i]))
}

/// `GitignoreBuilder::new` starts an empty list of rules for the directory
/// `root`, of which it drops a leading `./`.
#[verifier::external_body]
fn builder_new(root: &str) -> (b: GitignoreBuilder)
    ensures
        builder_root(b) == without_dot_slash(root@),
        builder_rules(b) == Seq::<Seq<char>>::empty(),
{
    GitignoreBuilder::new(root)
}

/// `GitignoreBuilder::add_line` adds the rule that `line` states. A comment
/// or a blank line is accepted and changes nothing. A rule that is no valid
/// glob is refused and changes nothing.
#[verifier::external_body]
fn builder_add_line(b: &mut GitignoreBuilder, line: &str) -> (r: Result<(), ignore::Error>)
    ensures
        r is Ok <==> (is_rule(line@) ==> rule_compiles(rule_of(line@))),
        builder_root(*final(b)) == builder_root(*old(b)),
        builder_rules(*final(b)) == if is_rule(line@) && r is Ok {
            builder_rules(*old(b)).push(rule_of(line@))
        } else {
            builder_rules(*old(b))
        },
{
    b.add_line(None, line).map(|_| ())
}

/// `GitignoreBuilder::build` compiles the rules added so far into one set,
/// for the same directory.
#[verifier::external_body]
fn builder_build(b: &GitignoreBuilder) -> (r: Result<Gitignore, ignore::Error>)
    ensures
        r is Ok <==> rules_build(builder_rules(*b)),
        r matches Ok(g) ==> matcher_root(g) == builder_root(*b) && matcher_rules(g)
            == builder_rules(*b),
{
    b.build()
}

/// `Gitignore::matched` finds the last rule that matches `path`;
/// `Match::is_ignore` tells whether that rule ignores the path.
#[verifier::external_body]
fn matcher_ignores(g: &Gitignore, path: &str, is_dir: bool) -> (b: bool)
    ensures
        b == rules_ignore(matcher_root(*g), matcher_rules(*g), path@, is_dir),
{
    g.matched(path, is_dir).is_ignore()
}

/// `line` without the byte-order marks at its start.
pub open spec fn without_bom(line: Seq<char>) -> Seq<char>
    decreases line.len(),
{
    if line.len() > 0 && line[0] == '\u{feff}' {
        without_bom(line.drop_first())
    } else {
        line
    }
}

/// The lines of an ignore file: the lines of its text, the first of them
/// without the byte-order marks at its start.
pub open spec fn ignore_file_lines(content: Seq<char>) -> Seq<Seq<char>> {
    let all = lines(content);
    if all.len() == 0 {
        all
    } else {
        all.update(0, without_bom(all[0]))
    }
}

/// The combined list of rule lines: those of the ignore file, if there is
/// one, then the patterns of the request.
pub open spec fn combined_lines(ignore_file: Option<&str>, patterns: Seq<Seq<char>>) -> Seq<
    Seq<char>,
> {
    match ignore_file {
        Some(content) => ignore_file_lines(content@) + patterns,
        None => patterns,
    }
}

/// A copy of `line` without the byte-order marks at its start.
fn strip_bom(line: &str) -> (out: String)
    ensures
        out@ == without_bom(line@),
{
    let v = chars_of(line);
    let mut from: usize = 0;
    assert(v@.skip(0) == v@);
    while from < v.len() && v[from] == '\u{feff}'
        invariant
            from <= v.len(),
            without_bom(v@) == without_bom(v@.skip(from as int)),
        decreases v.len() - from,
    {
        assert(v@.skip(from as int).drop_first() == v@.skip(from + 1));
        from += 1;
    }
    assert(v@.skip(from as int) == v@.subrange(from as int, v.len() as int));
    string_of_range(&v, from, v.len())
}

/// Splits the text of an ignore file into its lines.
pub fn read_ignore_lines(content: &str) -> (out: Vec<String>)
    ensures
        out.deep_view() == ignore_file_lines(content@),
{
    let mut out = split_lines(content);
    if out.len() > 0 {
        let ghost before = out.deep_view();
        let first = strip_bom(out[0].as_str());
        out.set(0, first);
        assert(out.deep_view() =~= before.update(0, without_bom(before[0])));
    }
    out
}

/// Decides, for any path, whether the exclusion rules leave it out.
pub struct ExcludeMatcher {
    inner: Gitignore,
}

impl ExcludeMatcher {
    /// The directory that the rules are relative to.
    pub closed spec fn root(&self) -> Seq<char> {
        matcher_root(self.inner)
    }

    /// The rules, in the order in which they apply: a later rule overrides
    /// an earlier one.
    pub closed spec fn rules(&self) -> Seq<Seq<char>> {
        matcher_rules(self.inner)
    }

    /// Whether the rules exclude `path`.
    pub open spec fn excludes(&self, path: Seq<char>, is_dir: bool) -> bool {
        rules_ignore(self.root(), self.rules(), path, is_dir)
    }

    /// Whether this matcher is what `root` and the given lines compile to.
    pub open spec fn built_from(&self, root: Seq<char>, lines: Seq<Seq<char>>) -> bool {
        &&& self.root() == without_dot_slash(root)
        &&& self.rules() == rules_of(lines)
    }

    /// Compiles the rules for `root`: the lines of the ignore file, if the
    /// root has one (`ignore_file` is its text), then `cli_patterns`, in
    /// that order. Fails on the first line that is no valid rule.
    pub fn new(root: &str, ignore_file: Option<&str>, cli_patterns: &[String]) -> (r: Result<
        ExcludeMatcher,
        PatternError,
    >)
        ensures
            build_result(root@, ignore_file, cli_patterns.deep_view(), r),
    {
        let mut all: Vec<String> = match ignore_file {
            Some(content) => read_ignore_lines(content),
            None => Vec::new(),
        };
        let ghost from_file = all.deep_view();
        let mut k: usize = 0;
        while k < cli_patterns.len()
            invariant
                k <= cli_patterns.len(),
                all.deep_view() == from_file + cli_patterns.deep_view().take(k as int),
            decreases cli_patterns.len() - k,
        {
            let ghost before = all.deep_view();
            all.push(cli_patterns[k].clone());
            assert(all.deep_view() =~= before.push(cli_patterns.deep_view()[k as int]));
            assert(cli_patterns.deep_view().take(k + 1) =~= cli_patterns.deep_view().take(
                k as int,
            ).push(cli_patterns.deep_view()[k as int]));
            k += 1;
        }
        assert(cli_patterns.deep_view().take(k as int) == cli_patterns.deep_view());
        assert(from_file + Seq::<Seq<char>>::empty() =~= from_file);
        let ghost lines = all.deep_view();
        assert(lines == combined_lines(ignore_file, cli_patterns.deep_view()));

        let mut builder = builder_new(root);
        let mut i: usize = 0;
        assert(lines.take(0) =~= Seq::<Seq<char>>::empty());
        while i < all.len()
            invariant
                i <= all.len(),
                lines == all.deep_view(),
                lines == combined_lines(ignore_file, cli_patterns.deep_view()),
                builder_root(builder) == without_dot_slash(root@),
                builder_rules(builder) == rules_of(lines.take(i as int)),
                all_compile(lines, i as int),
            decreases all.len() - i,
        {
            proof {
                assert(lines.take(i + 1).drop_last() == lines.take(i as int));
                assert(lines.take(i + 1).last() == lines[i as int]);
                assert(lines[i as int] == all[i as int]@);
            }
            match builder_add_line(&mut builder, all[i].as_str()) {
                Ok(()) => {},
                Err(source) => {
                    let pattern = all[i].clone();
                    return Err(PatternError::InvalidPattern { pattern, index: i, source });
                },
            }
            i += 1;
        }
        assert(lines.take(i as int) == lines);
        match builder_build(&builder) {
            Ok(inner) => Ok(ExcludeMatcher { inner }),
            Err(source) => Err(PatternError::BuildFailed { source }),
        }
    }

    /// Tells whether the rules exclude `path`. `is_dir` says whether the
    /// path is a directory: a rule that ends in `/` matches directories only.
    pub fn is_excluded(&self, path: &str, is_dir: bool) -> (b: bool)
        ensures
            b == self.excludes(path@, is_dir),
    {
        matcher_ignores(&self.inner, path, is_dir)
    }
}

/// What compiling the rules for `root` gives: a matcher for exactly the
/// rules that the combined lines state, if each of them is a valid glob and
/// the set of them compiles; else the first line at fault, or the failure
/// of the set.
pub open spec fn build_result(
    root: Seq<char>,
    ignore_file: Option<&str>,
    patterns: Seq<Seq<char>>,
    r: Result<ExcludeMatcher, PatternError>,
) -> bool {
    let all = combined_lines(ignore_file, patterns);
    match r {
        Ok(m) => {
            &&& m.built_from(root, all)
            &&& all_compile(all, all.len() as int)
            &&& rules_build(rules_of(all))
        },
        Err(PatternError::InvalidPattern { pattern, index, .. }) => {
            &&& index < all.len()
            &&& pattern@ == all[index as int]
            &&& is_rule(all[index as int])
            &&& !rule_compiles(rule_of(all[index as int]))
            &&& all_compile(all, index as int)
        },
        Err(PatternError::BuildFailed { .. }) => {
            &&& all_compile(all, all.len() as int)
            &&& !rules_build(rules_of(all))
        },
        Err(PatternError::IgnoreFileReadFailed { .. }) => false,
    }
}

/// Building is repeatable: two matchers compiled from the same root and the
/// same lines give the same answer for every path.
pub proof fn lemma_build_is_repeatable(
    first: ExcludeMatcher,
    second: ExcludeMatcher,
    root: Seq<char>,
    lines: Seq<Seq<char>>,
)
    requires
        first.built_from(root, lines),
        second.built_from(root, lines),
    ensures
        forall|path: Seq<char>, is_dir: bool|
            first.excludes(path, is_dir) == second.excludes(path, is_dir),
{
}

} // verus!
