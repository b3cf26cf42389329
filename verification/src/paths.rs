//! Paths as text: components are separated by `/`.

use crate::text::{chars_of, starts_with, string_of_range};
use vstd::prelude::*;

verus! {

/// `path` without the separators at its end.
pub open spec fn without_trailing_slashes(path: Seq<char>) -> Seq<char>
    decreases path.len(),
{
    if path.len() > 0 && path.last() == '/' {
        without_trailing_slashes(path.drop_last())
    } else {
        path
    }
}

/// What follows the last separator of `path`; all of it if it has none.
pub open spec fn last_segment(path: Seq<char>) -> Seq<char>
    decreases path.len(),
{
    if path.len() == 0 || path.last() == '/' {
        Seq::empty()
    } else {
        last_segment(path.drop_last()).push(path.last())
    }
}

/// The final component of `path`: its name, without the directories that
/// lead to it. Separators at the end of the path do not count.
pub open spec fn final_component(path: Seq<char>) -> Seq<char> {
    last_segment(without_trailing_slashes(path))
}

/// `path` without the separators at its start.
pub open spec fn without_leading_slashes(path: Seq<char>) -> Seq<char>
    decreases path.len(),
{
    if path.len() > 0 && path[0] == '/' {
        without_leading_slashes(path.drop_first())
    } else {
        path
    }
}

/// Whether `path` is `root` or lies below it: it begins with `root`, and
/// the root ends where a component of the path ends.
pub open spec fn lies_under(root: Seq<char>, path: Seq<char>) -> bool {
    &&& root.len() > 0
    &&& root.is_prefix_of(path)
    &&& (path.len() == root.len() || root.last() == '/' || path[root.len() as int] == '/')
}

/// `path` as seen from `root`: what follows the root where the path lies
/// under it, the path unchanged where it does not.
pub open spec fn relative_to(root: Seq<char>, path: Seq<char>) -> Seq<char> {
    if lies_under(root, path) {
        without_leading_slashes(path.skip(root.len() as int))
    } else {
        path
    }
}

/// Where the final component of `v` begins and ends.
pub fn final_component_bounds(v: &Vec<char>) -> (r: (usize, usize))
    ensures
        r.0 <= r.1 <= v.len(),
        v@.subrange(r.0 as int, r.1 as int) == final_component(v@),
{
    let mut end: usize = v.len();
    assert(v@.take(end as int) == v@);
    while end > 0 && v[end - 1] == '/'
        invariant
            end <= v.len(),
            without_trailing_slashes(v@) == without_trailing_slashes(v@.take(end as int)),
        decreases end,
    {
        assert(v@.take(end as int).drop_last() == v@.take(end - 1));
        end -= 1;
    }
    let ghost stem = v@.take(end as int);
    assert(without_trailing_slashes(v@) == stem);
    let mut start: usize = end;
    assert(stem.take(start as int) == stem);
    assert(stem.subrange(start as int, end as int) =~= Seq::<char>::empty());
    assert(last_segment(stem) + Seq::<char>::empty() =~= last_segment(stem));
    while start > 0 && v[start - 1] != '/'
        invariant
            start <= end <= v.len(),
            stem == v@.take(end as int),
            last_segment(stem) == last_segment(stem.take(start as int)) + stem.subrange(
                start as int,
                end as int,
            ),
        decreases start,
    {
        let ghost head = stem.take(start as int);
        assert(head.drop_last() == stem.take(start - 1));
        assert(head.last() == v@[start - 1]);
        assert(last_segment(head.drop_last()).push(head.last()) + stem.subrange(
            start as int,
            end as int,
        ) =~= last_segment(head.drop_last()) + stem.subrange(start - 1, end as int));
        start -= 1;
    }
    proof {
        let head = stem.take(start as int);
        if start > 0 {
            assert(head.last() == v@[start - 1]);
        }
        assert(last_segment(head) =~= Seq::<char>::empty());
        assert(Seq::<char>::empty() + stem.subrange(start as int, end as int) =~= stem.subrange(
            start as int,
            end as int,
        ));
        assert(stem.subrange(start as int, end as int) =~= v@.subrange(start as int, end as int));
    }
    (start, end)
}

/// The final component of `path`.
pub fn file_name(path: &str) -> (name: String)
    ensures
        name@ == final_component(path@),
{
    let v = chars_of(path);
    let (start, end) = final_component_bounds(&v);
    string_of_range(&v, start, end)
}

/// `path` as seen from `root`.
pub fn relative_path(root: &str, path: &str) -> (out: String)
    ensures
        out@ == relative_to(root@, path@),
{
    let r = chars_of(root);
    let p = chars_of(path);
    let under = r.len() > 0 && starts_with(&p, &r) && (p.len() == r.len() || r[r.len() - 1] == '/'
        || p[r.len()] == '/');
    if !under {
        return string_of_range(&p, 0, p.len());
    }
    let mut from: usize = r.len();
    let ghost rest = p@.skip(r.len() as int);
    assert(rest.skip(0) == rest);
    while from < p.len() && p[from] == '/'
        invariant
            r.len() <= from <= p.len(),
            rest == p@.skip(r.len() as int),
            without_leading_slashes(rest) == without_leading_slashes(
                rest.skip(from - r.len()),
            ),
        decreases p.len() - from,
    {
        assert(rest.skip(from - r.len()).drop_first() == rest.skip(from - r.len() + 1));
        from += 1;
    }
    assert(rest.skip(from - r.len()) == p@.subrange(from as int, p.len() as int));
    string_of_range(&p, from, p.len())
}

} // verus!
