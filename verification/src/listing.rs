//! What a walk has seen, and which of the entries it has seen are bundled.
//!
//! A walk reports its entries in the order in which it meets them, each
//! with its depth: a directory first, then what it holds, one level deeper.
//! An entry lies below an earlier one as long as everything reported in
//! between, and the entry itself, is deeper than that earlier one.

use crate::exclude::ExcludeMatcher;
use crate::filter::{admitted, EntryView};
use vstd::prelude::*;

verus! {

/// What is done with one entry of a walk.
#[derive(Debug, Clone, Copy, PartialEq, Eq, Structural)]
pub enum Decision {
    /// The filter turns the entry away; nothing below it is to be visited.
    Reject,
    /// The entry yields no record.
    Skip,
    /// The entry is a file to bundle: its content is wanted.
    Read,
}

/// An entry as a walk reported it, with the number of the input root whose
/// walk it belongs to.
pub struct Seen {
    pub entry: EntryView,
    pub root: nat,
}

/// The rules by which entries are chosen.
pub struct Policy {
    pub matcher: ExcludeMatcher,
    pub skip_hidden: bool,
    pub output: Seq<char>,
}

/// Whether entry `k` belongs to the same walk as entry `i` and is deeper.
pub open spec fn deeper(seen: Seq<Seen>, i: int, k: int) -> bool {
    seen[k].root == seen[i].root && seen[k].entry.depth > seen[i].entry.depth
}

/// Whether entry `j` lies below entry `i`.
pub open spec fn below(seen: Seq<Seen>, i: int, j: int) -> bool {
    &&& 0 <= i < j < seen.len()
    &&& forall|k: int| i < k <= j ==> #[trigger] deeper(seen, i, k)
}

/// Whether something that is not deeper than entry `i` was reported after it.
pub open spec fn closed_off(seen: Seq<Seen>, i: int) -> bool {
    exists|k: int| i < k < seen.len() && !#[trigger] deeper(seen, i, k)
}

impl Policy {
    /// Whether the filter turns the entry away.
    pub open spec fn rejects(self, entry: EntryView) -> bool {
        !admitted(self.matcher, self.skip_hidden, entry)
    }

    /// Whether entry `j` lies below an entry that the filter turned away.
    pub open spec fn prunes(self, seen: Seq<Seen>, j: int) -> bool {
        exists|i: int| #[trigger] below(seen, i, j) && self.rejects(seen[i].entry)
    }

    /// Whether entry `j` is bundled: it is a regular file, the filter lets
    /// it and everything above it pass, and it is not the output itself.
    pub open spec fn selects(self, seen: Seq<Seen>, j: int) -> bool {
        &&& 0 <= j < seen.len()
        &&& seen[j].entry.is_file
        &&& !self.rejects(seen[j].entry)
        &&& !self.prunes(seen, j)
        &&& seen[j].entry.path != self.output
    }

    /// What is done with entry `j`.
    pub open spec fn verdict(self, seen: Seq<Seen>, j: int) -> Decision {
        if self.prunes(seen, j) {
            Decision::Skip
        } else if self.rejects(seen[j].entry) {
            Decision::Reject
        } else if self.selects(seen, j) {
            Decision::Read
        } else {
            Decision::Skip
        }
    }

    /// Whether entry `i` is the rejected entry, at depth `depth` in walk
    /// `walk`, below which everything reported since lies.
    pub open spec fn anchored(self, seen: Seq<Seen>, walk: nat, depth: nat, i: int) -> bool {
        &&& 0 <= i < seen.len()
        &&& seen[i].root == walk
        &&& seen[i].entry.depth == depth
        &&& self.rejects(seen[i].entry)
        &&& !self.prunes(seen, i)
        &&& forall|k: int| i < k < seen.len() ==> #[trigger] deeper(seen, i, k)
    }

    /// Whether the walk `walk` is still below a rejected entry of depth
    /// `depth`.
    pub open spec fn held_back(self, seen: Seq<Seen>, walk: nat, depth: nat) -> bool {
        exists|i: int| #[trigger] self.anchored(seen, walk, depth, i)
    }

    /// Whether the walk `walk` has left everything that the filter turned
    /// away.
    pub open spec fn in_the_clear(self, seen: Seq<Seen>, walk: nat) -> bool {
        forall|i: int|
            0 <= i < seen.len() && seen[i].root == walk && self.rejects(#[trigger] seen[i].entry)
                ==> closed_off(seen, i)
    }

    /// Whether `skip` is the right memory of what `seen` holds for walk
    /// `walk`: the depth of the rejected entry that the walk is still
    /// below, if there is one.
    pub open spec fn tracks(self, seen: Seq<Seen>, walk: nat, skip: Option<usize>) -> bool {
        if skip is Some {
            self.held_back(seen, walk, skip->0 as nat)
        } else {
            self.in_the_clear(seen, walk)
        }
    }
}

/// What holds of the entries seen so far still holds of them when one more
/// is reported.
pub proof fn lemma_one_more(policy: Policy, seen: Seq<Seen>, next: Seen)
    ensures
        forall|i: int, j: int|
            j < seen.len() ==> #[trigger] below(seen.push(next), i, j) == below(seen, i, j),
        forall|j: int|
            0 <= j < seen.len() ==> #[trigger] policy.prunes(seen.push(next), j) == policy.prunes(
                seen,
                j,
            ),
        forall|j: int|
            0 <= j < seen.len() ==> #[trigger] policy.selects(seen.push(next), j)
                == policy.selects(seen, j),
{
    let more = seen.push(next);
    assert forall|i: int, j: int| j < seen.len() implies #[trigger] below(more, i, j) == below(
        seen,
        i,
        j,
    ) by {
        if 0 <= i < j {
            assert forall|k: int| i < k <= j implies deeper(more, i, k) == deeper(seen, i, k) by {
                assert(more[k] == seen[k]);
                assert(more[i] == seen[i]);
            }
            if below(seen, i, j) {
                assert forall|k: int| i < k <= j implies #[trigger] deeper(more, i, k) by {
                    assert(deeper(seen, i, k));
                }
            }
            if below(more, i, j) {
                assert forall|k: int| i < k <= j implies #[trigger] deeper(seen, i, k) by {
                    assert(deeper(more, i, k));
                }
            }
        }
    }
    assert forall|j: int| 0 <= j < seen.len() implies #[trigger] policy.prunes(more, j)
        == policy.prunes(seen, j) by {
        if policy.prunes(seen, j) {
            let i = choose|i: int| #[trigger] below(seen, i, j) && policy.rejects(seen[i].entry);
            assert(below(more, i, j));
            assert(more[i] == seen[i]);
        }
        if policy.prunes(more, j) {
            let i = choose|i: int| #[trigger] below(more, i, j) && policy.rejects(more[i].entry);
            assert(below(seen, i, j));
            assert(more[i] == seen[i]);
        }
    }
    assert forall|j: int| 0 <= j < seen.len() implies #[trigger] policy.selects(more, j)
        == policy.selects(seen, j) by {
        assert(more[j] == seen[j]);
        assert(policy.prunes(more, j) == policy.prunes(seen, j));
    }
}

/// The depth to remember after one more entry of walk `walk` is reported.
pub open spec fn next_skip(policy: Policy, skip: Option<usize>, entry: EntryView) -> Option<
    usize,
> {
    match skip {
        Some(depth) if entry.depth > depth => skip,
        _ => if policy.rejects(entry) {
            Some(entry.depth as usize)
        } else {
            None
        },
    }
}

/// One step of a walk: the memory of the rejected entry above tells
/// whether the next entry lies below a rejected one, and the memory kept
/// after the step is right again.
pub proof fn lemma_step(
    policy: Policy,
    seen: Seq<Seen>,
    walk: nat,
    skip: Option<usize>,
    entry: EntryView,
)
    requires
        policy.tracks(seen, walk, skip),
        entry.depth <= usize::MAX,
    ensures
        policy.prunes(seen.push(Seen { entry, root: walk }), seen.len() as int) == (skip matches Some(
            depth,
        ) && entry.depth > depth),
        policy.tracks(seen.push(Seen { entry, root: walk }), walk, next_skip(policy, skip, entry)),
{
    let next = Seen { entry, root: walk };
    let more = seen.push(next);
    let n = seen.len() as int;
    lemma_one_more(policy, seen, next);
    assert(more[n] == next);
    assert forall|i: int, k: int| 0 <= i < n && 0 <= k < n implies deeper(more, i, k) == deeper(
        seen,
        i,
        k,
    ) by {
        assert(more[i] == seen[i]);
        assert(more[k] == seen[k]);
    }
    match skip {
        Some(depth) => {
            let a = choose|i: int| #[trigger] policy.anchored(seen, walk, depth as nat, i);
            assert(more[a] == seen[a]);
            if entry.depth > depth {
                assert forall|k: int| a < k <= n implies #[trigger] deeper(more, a, k) by {
                    if k < n {
                        assert(deeper(seen, a, k));
                    }
                }
                assert(below(more, a, n));
                assert(policy.prunes(more, n));
                assert(policy.anchored(more, walk, depth as nat, a));
            } else {
                assert forall|i: int| #[trigger] below(more, i, n) && policy.rejects(
                    more[i].entry,
                ) implies false by {
                    assert(more[i] == seen[i]);
                    if i < a {
                        assert forall|k: int| i < k <= a implies #[trigger] deeper(seen, i, k) by {
                            assert(deeper(more, i, k));
                        }
                        assert(below(seen, i, a));
                        assert(policy.prunes(seen, a));
                    } else if i == a {
                        assert(deeper(more, a, n));
                    } else {
                        assert(deeper(seen, a, i));
                        assert(deeper(more, i, n));
                    }
                }
                assert(!policy.prunes(more, n));
                lemma_fresh(policy, seen, walk, entry);
            }
        },
        None => {
            assert forall|i: int| #[trigger] below(more, i, n) && policy.rejects(
                more[i].entry,
            ) implies false by {
                assert(more[i] == seen[i]);
                assert(deeper(more, i, n));
                assert(closed_off(seen, i));
                let k = choose|k: int| i < k < seen.len() && !#[trigger] deeper(seen, i, k);
                assert(deeper(more, i, k));
            }
            assert(!policy.prunes(more, n));
            lemma_fresh(policy, seen, walk, entry);
        },
    }
}

/// After an entry that lies below no rejected one, the memory starts anew:
/// the entry's own depth if the filter turns it away, nothing otherwise.
proof fn lemma_fresh(policy: Policy, seen: Seq<Seen>, walk: nat, entry: EntryView)
    requires
        !policy.prunes(seen.push(Seen { entry, root: walk }), seen.len() as int),
        entry.depth <= usize::MAX,
    ensures
        policy.tracks(
            seen.push(Seen { entry, root: walk }),
            walk,
            if policy.rejects(entry) {
                Some(entry.depth as usize)
            } else {
                None
            },
        ),
{
    let next = Seen { entry, root: walk };
    let more = seen.push(next);
    let n = seen.len() as int;
    assert(more[n] == next);
    if policy.rejects(entry) {
        assert(policy.anchored(more, walk, (entry.depth as usize) as nat, n));
    } else {
        assert forall|i: int|
            0 <= i < more.len() && more[i].root == walk && policy.rejects(
                #[trigger] more[i].entry,
            ) implies closed_off(more, i) by {
            assert(i < n);
            if below(more, i, n) {
                assert(policy.prunes(more, n));
            }
            let k = choose|k: int| i < k <= n && !#[trigger] deeper(more, i, k);
            assert(i < k < more.len() && !deeper(more, i, k));
        }
    }
}

} // verus!
