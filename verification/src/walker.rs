//! The traversal engine: it is told each entry that a walk meets, says
//! what to do with it, renders the record of each file whose content it is
//! handed, and reports at the end how the run went.

use crate::args::RunArgs;
use crate::errors::{FileSystemError, TraversalError, TreeClipError};
use crate::exclude::{build_result, ExcludeMatcher};
use crate::filter::{admits, Entry};
use crate::listing::{below, lemma_one_more, lemma_step, Decision, Policy, Seen};
use crate::paths::{relative_path, relative_to};
use crate::utils::validate_path_exists;
use crate::writer::{
    artifact_of,
    chunk_text,
    lemma_artifact_grows,
    write_file_content,
    RecordView,
};
use vstd::prelude::*;
use vstd::string::StringExecFns;

verus! {

/// What a run is asked to do.
#[derive(Debug, Clone)]
pub struct TraversalRequest {
    /// The directories to traverse, in order.
    pub inputs: Vec<String>,
    /// Where the bundle is written.
    pub output: String,
    /// The directory whose ignore file applies, and against which the
    /// paths in the bundle are shown.
    pub root: String,
    /// Exclusion patterns, applied after those of the ignore file.
    pub exclude: Vec<String>,
    /// Whether entries whose name begins with a dot are left out.
    pub skip_hidden: bool,
}

/// How a run ended.
#[derive(Debug, Clone)]
pub struct TraversalOutcome {
    /// The number of files written to the bundle, over all inputs.
    pub files_written: usize,
    /// The inputs that yielded no file.
    pub empty_roots: Vec<String>,
    /// The entries that could not be reached and were passed over.
    pub inaccessible: Vec<String>,
}

/// The configuration of the traversal of one input directory.
#[derive(Debug, Clone)]
pub struct Walker {
    /// The directory whose ignore file applies.
    pub root: String,
    /// The directory to traverse.
    pub input: String,
    /// Where the bundle is written.
    pub output: String,
    /// Exclusion patterns.
    pub exclude_patterns: Vec<String>,
}

/// An entry as a walk found it, with what it holds if it is a file.
#[derive(Debug, Clone)]
pub struct Snapshot {
    /// The entry.
    pub entry: Entry,
    /// The content of the entry; of no account unless it is a file.
    pub content: String,
}

/// The entries of a listing as walk number `walk` reports them.
pub open spec fn reported(listing: Seq<Snapshot>, walk: nat) -> Seq<Seen> {
    Seq::new(listing.len(), |i: int| Seen { entry: listing[i].entry@, root: walk })
}

/// The names of `names`, separated by a comma and a space.
pub open spec fn joined_names(names: Seq<Seq<char>>) -> Seq<char>
    decreases names.len(),
{
    if names.len() == 0 {
        Seq::empty()
    } else if names.len() == 1 {
        names[0]
    } else {
        joined_names(names.drop_last()) + seq![',', ' '] + names.last()
    }
}

/// Whether the flags say that input number `i` exists.
pub open spec fn exists_at(flags: Seq<bool>, i: int) -> bool {
    0 <= i < flags.len() && flags[i]
}

/// Whether a record for entry `j` is in the log.
pub open spec fn recorded(log: Seq<RecordView>, j: int) -> bool {
    exists|k: int| 0 <= k < log.len() && (#[trigger] log[k]).source == j
}

/// A traversal in progress.
pub struct Traversal {
    matcher: ExcludeMatcher,
    root: String,
    output: String,
    skip_hidden: bool,
    current: String,
    skip_below: Option<usize>,
    pending: Option<String>,
    records: Vec<String>,
    root_start: usize,
    empty_roots: Vec<String>,
    inaccessible: Vec<String>,
    seen: Ghost<Seq<Seen>>,
    log: Ghost<Seq<RecordView>>,
    walk: Ghost<nat>,
    walk_start: Ghost<int>,
}

impl Traversal {
    /// The rules by which this traversal chooses entries.
    pub closed spec fn policy(&self) -> Policy {
        Policy { matcher: self.matcher, skip_hidden: self.skip_hidden, output: self.output@ }
    }

    /// The directory against which the paths in the bundle are shown.
    pub closed spec fn root(&self) -> Seq<char> {
        self.root@
    }

    /// Every entry reported so far, in order, over all inputs.
    pub closed spec fn seen(&self) -> Seq<Seen> {
        self.seen@
    }

    /// The records written so far, in order.
    pub closed spec fn log(&self) -> Seq<RecordView> {
        self.log@
    }

    /// The number of the input being walked.
    pub closed spec fn walk(&self) -> nat {
        self.walk@
    }

    /// The name of the input being walked.
    pub closed spec fn current_root(&self) -> Seq<char> {
        self.current@
    }

    /// Where in `seen` the walk of the current input begins.
    pub closed spec fn walk_start(&self) -> int {
        self.walk_start@
    }

    /// Whether the content of the last entry reported is awaited.
    pub closed spec fn awaiting(&self) -> bool {
        self.pending is Some
    }

    /// The inputs found empty so far.
    pub closed spec fn empty_roots(&self) -> Seq<Seq<char>> {
        self.empty_roots.deep_view()
    }

    /// The entries that could not be reached, in the order met.
    pub closed spec fn inaccessible(&self) -> Seq<Seq<char>> {
        self.inaccessible.deep_view()
    }

    /// The path of the entry whose content is awaited.
    pub closed spec fn awaited_path(&self) -> Seq<char> {
        self.pending->0@
    }

    /// The number of records written for the current input.
    pub closed spec fn root_records(&self) -> int {
        self.records@.len() - self.root_start
    }

    /// The bundle as written so far.
    pub open spec fn artifact(&self) -> Seq<char> {
        artifact_of(self.log())
    }

    /// Whether every file chosen so far has its record, or is the one whose
    /// content is awaited.
    pub open spec fn complete(&self) -> bool {
        forall|j: int|
            0 <= j < self.seen().len() && #[trigger] self.policy().selects(self.seen(), j)
                ==> recorded(self.log(), j) || (self.awaiting() && j == self.seen().len() - 1)
    }

    /// What holds of every traversal: the records are for chosen files,
    /// one each and in the order of the walk, and what is remembered of the
    /// walk matches what was reported.
    pub closed spec fn wf(&self) -> bool {
        let seen = self.seen@;
        let log = self.log@;
        &&& self.policy().tracks(seen, self.walk@, self.skip_below)
        &&& 0 <= self.walk_start@ <= seen.len()
        &&& forall|i: int|
            0 <= i < seen.len() ==> ((#[trigger] seen[i]).root == self.walk@ <==> i
                >= self.walk_start@)
        &&& forall|i: int| 0 <= i < seen.len() ==> (#[trigger] seen[i]).root <= self.walk@
        &&& self.records@.len() == log.len()
        &&& self.root_start <= self.records@.len()
        &&& forall|k: int| 0 <= k < log.len() ==> (#[trigger] self.records@[k])@ == log[k].path
        &&& forall|k: int|
            0 <= k < log.len() ==> {
                &&& self.policy().selects(seen, (#[trigger] log[k]).source)
                &&& log[k].path == relative_to(self.root@, seen[log[k].source].entry.path)
                &&& (k >= self.root_start <==> log[k].source >= self.walk_start@)
            }
        &&& forall|a: int, b: int|
            0 <= a < b < log.len() ==> (#[trigger] log[a]).source < (#[trigger] log[b]).source
        &&& self.pending matches Some(path) ==> {
            &&& seen.len() > 0
            &&& self.policy().selects(seen, seen.len() - 1)
            &&& path@ == seen.last().entry.path
            &&& seen.len() - 1 >= self.walk_start@
            &&& forall|k: int| 0 <= k < log.len() ==> (#[trigger] log[k]).source < seen.len() - 1
        }
    }

    /// A traversal that has seen nothing yet, for a matcher already built.
    pub fn with_matcher(matcher: ExcludeMatcher, root: &str, output: &str, skip_hidden: bool) -> (t:
        Traversal)
        ensures
            t.wf(),
            t.policy() == (Policy { matcher, skip_hidden, output: output@ }),
            t.root() == root@,
            t.seen().len() == 0,
            t.log().len() == 0,
            t.empty_roots().len() == 0,
            t.inaccessible().len() == 0,
            !t.awaiting(),
            t.root_records() == 0,
            t.current_root().len() == 0,
    {
        let t = Traversal {
            matcher,
            root: root.to_owned(),
            output: output.to_owned(),
            skip_hidden,
            current: String::new(),
            skip_below: None,
            pending: None,
            records: Vec::new(),
            root_start: 0,
            empty_roots: Vec::new(),
            inaccessible: Vec::new(),
            seen: Ghost(Seq::empty()),
            log: Ghost(Seq::empty()),
            walk: Ghost(0),
            walk_start: Ghost(0),
        };
        assert(t.policy().in_the_clear(t.seen@, 0));
        t
    }

    /// Begins a run: checks that every input exists and compiles the
    /// exclusion rules. `inputs_exist` holds, for each input in order, what
    /// the file system answered; an input without an answer counts as
    /// missing. `ignore_file` is the text of the root's ignore file, if it
    /// has one.
    pub fn start(request: &TraversalRequest, inputs_exist: &[bool], ignore_file: Option<&str>) -> (r:
        Result<Traversal, TreeClipError>)
        ensures
            match r {
                Ok(t) => {
                    &&& forall|i: int|
                        0 <= i < request.inputs@.len() ==> exists_at(inputs_exist@, i)
                    &&& build_result(
                        request.root@,
                        ignore_file,
                        request.exclude.deep_view(),
                        Ok(t.policy().matcher),
                    )
                    &&& t.wf()
                    &&& t.policy().skip_hidden == request.skip_hidden
                    &&& t.policy().output == request.output@
                    &&& t.root() == request.root@
                    &&& t.seen().len() == 0
                    &&& t.log().len() == 0
                    &&& t.empty_roots().len() == 0
                    &&& t.inaccessible().len() == 0
                    &&& !t.awaiting()
                },
                Err(TreeClipError::FileSystem(FileSystemError::PathNotFound(path))) => {
                    exists|i: int|
                        {
                            &&& 0 <= i < request.inputs@.len()
                            &&& !exists_at(inputs_exist@, i)
                            &&& path@ == (#[trigger] request.inputs@[i])@
                            &&& forall|j: int| 0 <= j < i ==> exists_at(inputs_exist@, j)
                        }
                },
                Err(TreeClipError::Pattern(e)) => {
                    &&& forall|i: int|
                        0 <= i < request.inputs@.len() ==> exists_at(inputs_exist@, i)
                    &&& build_result(
                        request.root@,
                        ignore_file,
                        request.exclude.deep_view(),
                        Err(e),
                    )
                },
                Err(_) => false,
            },
    {
        let mut i: usize = 0;
        while i < request.inputs.len()
            invariant
                i <= request.inputs@.len(),
                forall|j: int| 0 <= j < i ==> exists_at(inputs_exist@, j),
            decreases request.inputs@.len() - i,
        {
            let there = i < inputs_exist.len() && inputs_exist[i];
            match validate_path_exists(request.inputs[i].as_str(), there) {
                Ok(()) => {},
                Err(e) => {
                    return Err(TreeClipError::FileSystem(e));
                },
            }
            i += 1;
        }
        match ExcludeMatcher::new(request.root.as_str(), ignore_file, request.exclude.as_slice()) {
            Ok(matcher) => Ok(
                Traversal::with_matcher(
                    matcher,
                    request.root.as_str(),
                    request.output.as_str(),
                    request.skip_hidden,
                ),
            ),
            Err(e) => Err(TreeClipError::Pattern(e)),
        }
    }

    /// Begins the walk of the next input, named `input`.
    pub fn enter_root(&mut self, input: &str)
        requires
            old(self).wf(),
        ensures
            final(self).wf(),
            final(self).policy() == old(self).policy(),
            final(self).root() == old(self).root(),
            final(self).seen() == old(self).seen(),
            final(self).log() == old(self).log(),
            final(self).empty_roots() == old(self).empty_roots(),
            final(self).inaccessible() == old(self).inaccessible(),
            final(self).walk() == old(self).walk() + 1,
            final(self).walk_start() == old(self).seen().len(),
            final(self).current_root() == input@,
            final(self).root_records() == 0,
            !final(self).awaiting(),
            old(self).complete() && !old(self).awaiting() ==> final(self).complete(),
    {
        self.current = input.to_owned();
        self.skip_below = None;
        self.pending = None;
        self.root_start = self.records.len();
        proof {
            self.walk@ = self.walk@ + 1;
            self.walk_start@ = self.seen@.len() as int;
            assert(self.policy().in_the_clear(self.seen@, self.walk@));
        }
    }

    /// Takes note of the next entry of the walk and says what to do with
    /// it. After `Decision::Read` the content of the entry is awaited: hand
    /// it to [`Traversal::write_record`].
    pub fn decide(&mut self, entry: &Entry) -> (d: Decision)
        requires
            old(self).wf(),
        ensures
            final(self).wf(),
            final(self).policy() == old(self).policy(),
            final(self).root() == old(self).root(),
            final(self).seen() == old(self).seen().push(
                Seen { entry: entry@, root: old(self).walk() },
            ),
            final(self).log() == old(self).log(),
            final(self).empty_roots() == old(self).empty_roots(),
            final(self).inaccessible() == old(self).inaccessible(),
            final(self).walk() == old(self).walk(),
            final(self).walk_start() == old(self).walk_start(),
            final(self).current_root() == old(self).current_root(),
            final(self).root_records() == old(self).root_records(),
            d == final(self).policy().verdict(final(self).seen(), old(self).seen().len() as int),
            final(self).awaiting() == (d == Decision::Read),
            d == Decision::Read ==> final(self).awaited_path() == entry@.path,
            old(self).complete() && !old(self).awaiting() ==> final(self).complete(),
    {
        let ghost before = self.seen@;
        let ghost policy = self.policy();
        let ghost next = Seen { entry: entry@, root: self.walk@ };
        let ghost after = before.push(next);
        let ghost n = before.len() as int;
        proof {
            lemma_step(policy, before, self.walk@, self.skip_below, entry@);
            lemma_one_more(policy, before, next);
            assert(after[n] == next);
            assert forall|i: int| 0 <= i < n implies after[i] == before[i] by {}
        }
        let pruned = match self.skip_below {
            Some(depth) => entry.depth > depth,
            None => false,
        };
        proof {
            self.seen@ = after;
        }
        if pruned {
            self.pending = None;
            return Decision::Skip;
        }
        if !admits(entry, &self.matcher, self.skip_hidden) {
            self.skip_below = Some(entry.depth);
            self.pending = None;
            return Decision::Reject;
        }
        self.skip_below = None;
        if entry.is_file && entry.path != self.output {
            self.pending = Some(entry.path.clone());
            assert(policy.selects(after, n));
            Decision::Read
        } else {
            self.pending = None;
            Decision::Skip
        }
    }

    /// Renders the record of the file whose content is awaited, and counts
    /// it. The text returned is to be appended to the bundle as it is.
    /// Returns `None`, and changes nothing, if no content is awaited.
    pub fn write_record(&mut self, content: &str) -> (chunk: Option<String>)
        requires
            old(self).wf(),
        ensures
            final(self).wf(),
            final(self).policy() == old(self).policy(),
            final(self).root() == old(self).root(),
            final(self).seen() == old(self).seen(),
            final(self).empty_roots() == old(self).empty_roots(),
            final(self).inaccessible() == old(self).inaccessible(),
            final(self).walk() == old(self).walk(),
            final(self).walk_start() == old(self).walk_start(),
            final(self).current_root() == old(self).current_root(),
            !final(self).awaiting(),
            old(self).complete() ==> final(self).complete(),
            !old(self).awaiting() ==> chunk is None && final(self).log() == old(self).log()
                && final(self).root_records() == old(self).root_records(),
            old(self).awaiting() ==> ({
                let source = old(self).seen().len() - 1;
                let path = relative_to(old(self).root(), old(self).seen()[source].entry.path);
                &&& chunk matches Some(text) && text@ == chunk_text(
                    old(self).log().len() == 0,
                    path,
                    content@,
                )
                &&& final(self).log() == old(self).log().push(
                    RecordView { source, path, content: content@ },
                )
                &&& final(self).artifact() == old(self).artifact() + chunk_text(
                    old(self).log().len() == 0,
                    path,
                    content@,
                )
                &&& final(self).root_records() == old(self).root_records() + 1
            }),
    {
        let pending = self.pending.take();
        match pending {
            None => None,
            Some(path) => {
                let ghost seen = self.seen@;
                let ghost log = self.log@;
                let ghost source = seen.len() - 1;
                let shown = relative_path(self.root.as_str(), path.as_str());
                let text = write_file_content(
                    self.records.len() == 0,
                    shown.as_str(),
                    content,
                );
                let ghost record = RecordView { source, path: shown@, content: content@ };
                proof {
                    lemma_artifact_grows(log, record);
                    self.log@ = log.push(record);
                }
                self.records.push(shown);
                proof {
                    let more = self.log@;
                    assert(more[log.len() as int] == record);
                    assert forall|k: int| 0 <= k < log.len() implies more[k] == log[k] by {}
                    assert forall|j: int|
                        0 <= j < seen.len() && #[trigger] self.policy().selects(seen, j) && (
                        recorded(log, j) || j == source) implies recorded(more, j) by {
                        if recorded(log, j) {
                            let k = choose|k: int|
                                0 <= k < log.len() && (#[trigger] log[k]).source == j;
                            assert(more[k].source == j);
                        } else {
                            assert(more[log.len() as int].source == j);
                        }
                    }
                }
                Some(text)
            },
        }
    }

    /// Walks a whole input that is held in memory: enters the input,
    /// reports every entry of `listing` in order, and hands over the
    /// content of each file that is asked for. Returns what the walk adds
    /// to the bundle. The input is not left: [`Traversal::leave_root`]
    /// tells afterwards what it yielded.
    pub fn walk_listing(&mut self, input: &str, listing: &[Snapshot]) -> (out: String)
        requires
            old(self).wf(),
        ensures
            final(self).wf(),
            final(self).policy() == old(self).policy(),
            final(self).root() == old(self).root(),
            final(self).empty_roots() == old(self).empty_roots(),
            final(self).inaccessible() == old(self).inaccessible(),
            final(self).walk() == old(self).walk() + 1,
            final(self).walk_start() == old(self).seen().len(),
            final(self).current_root() == input@,
            final(self).seen() == old(self).seen() + reported(listing@, final(self).walk()),
            final(self).artifact() == old(self).artifact() + out@,
            final(self).root_records() == final(self).log().len() - old(self).log().len(),
            old(self).log().is_prefix_of(final(self).log()),
            forall|k: int|
                old(self).log().len() <= k < final(self).log().len() ==> (
                #[trigger] final(self).log()[k]).content == listing@[final(self).log()[k].source
                    - old(self).seen().len()].content@,
            !final(self).awaiting(),
            old(self).complete() && !old(self).awaiting() ==> final(self).complete(),
    {
        self.enter_root(input);
        let ghost seen0 = self.seen();
        let ghost log0 = self.log();
        let ghost walk = self.walk();
        let ghost was_complete = self.complete();
        let mut out = String::new();
        let mut i: usize = 0;
        assert(seen0 + reported(listing@.take(0), walk) =~= seen0);
        assert(self.artifact() + Seq::<char>::empty() =~= self.artifact());
        while i < listing.len()
            invariant
                i <= listing@.len(),
                self.wf(),
                self.policy() == old(self).policy(),
                self.root() == old(self).root(),
                self.empty_roots() == old(self).empty_roots(),
                self.inaccessible() == old(self).inaccessible(),
                self.walk() == walk,
                self.walk_start() == seen0.len(),
                self.current_root() == input@,
                self.seen() == seen0 + reported(listing@.take(i as int), walk),
                self.artifact() == artifact_of(log0) + out@,
                self.root_records() == self.log().len() - log0.len(),
                log0.is_prefix_of(self.log()),
                forall|k: int|
                    log0.len() <= k < self.log().len() ==> (#[trigger] self.log()[k]).content
                        == listing@[self.log()[k].source - seen0.len()].content@ && seen0.len()
                        <= self.log()[k].source < seen0.len() + i,
                !self.awaiting(),
                was_complete ==> self.complete(),
            decreases listing@.len() - i,
        {
            let ghost before_seen = self.seen();
            let ghost before_log = self.log();
            let ghost before_out = out@;
            let decision = self.decide(&listing[i].entry);
            proof {
                assert(listing@.take(i + 1) =~= listing@.take(i as int).push(listing@[i as int]));
                assert(seen0 + reported(listing@.take(i + 1), walk) =~= (seen0 + reported(
                    listing@.take(i as int),
                    walk,
                )).push(Seen { entry: listing@[i as int].entry@, root: walk }));
            }
            match decision {
                Decision::Read => {
                    match self.write_record(listing[i].content.as_str()) {
                        Some(chunk) => {
                            out.append(chunk.as_str());
                            proof {
                                assert(artifact_of(log0) + before_out + chunk@ =~= artifact_of(
                                    log0,
                                ) + (before_out + chunk@));
                                let log = self.log();
                                assert(log[before_log.len() as int].source == before_seen.len());
                                assert forall|k: int| log0.len() <= k < log.len() implies (
                                #[trigger] log[k]).content == listing@[log[k].source
                                    - seen0.len()].content@ && seen0.len() <= log[k].source
                                    < seen0.len() + i + 1 by {
                                    if k < before_log.len() {
                                        assert(log[k] == before_log[k]);
                                    }
                                }
                            }
                        },
                        None => {},
                    }
                },
                _ => {},
            }
            i += 1;
        }
        assert(listing@.take(i as int) =~= listing@);
        out
    }

    /// Takes note of an entry that the walk could not reach. The entry is
    /// passed over and the walk goes on; the failure returned is for the
    /// caller to report.
    pub fn skip_inaccessible(&mut self, path: &str) -> (e: TraversalError)
        requires
            old(self).wf(),
        ensures
            final(self).wf(),
            final(self).policy() == old(self).policy(),
            final(self).root() == old(self).root(),
            final(self).seen() == old(self).seen(),
            final(self).log() == old(self).log(),
            final(self).empty_roots() == old(self).empty_roots(),
            final(self).walk() == old(self).walk(),
            final(self).walk_start() == old(self).walk_start(),
            final(self).current_root() == old(self).current_root(),
            final(self).root_records() == old(self).root_records(),
            final(self).awaiting() == old(self).awaiting(),
            old(self).complete() ==> final(self).complete(),
            final(self).inaccessible() == old(self).inaccessible().push(path@),
            e matches TraversalError::EntryAccessFailed { path: p } && p@ == path@,
    {
        let ghost before = self.inaccessible.deep_view();
        self.inaccessible.push(path.to_owned());
        assert(self.inaccessible.deep_view() =~= before.push(path@));
        proof {
            if old(self).complete() {
                assert forall|j: int|
                    0 <= j < self.seen().len() && #[trigger] self.policy().selects(
                        self.seen(),
                        j,
                    ) implies recorded(self.log(), j) || (self.awaiting() && j == self.seen().len()
                    - 1) by {
                    assert(old(self).policy().selects(old(self).seen(), j));
                }
            }
        }
        TraversalError::EntryAccessFailed { path: path.to_owned() }
    }

    /// The failure that ends the run when the content that is awaited
    /// cannot be read: it names the file. No content is awaited afterwards,
    /// and no record is written for the file.
    pub fn read_failed(&mut self, source: std::io::Error) -> (e: Option<FileSystemError>)
        requires
            old(self).wf(),
        ensures
            final(self).wf(),
            final(self).policy() == old(self).policy(),
            final(self).root() == old(self).root(),
            final(self).seen() == old(self).seen(),
            final(self).log() == old(self).log(),
            final(self).empty_roots() == old(self).empty_roots(),
            final(self).inaccessible() == old(self).inaccessible(),
            final(self).walk() == old(self).walk(),
            final(self).walk_start() == old(self).walk_start(),
            final(self).current_root() == old(self).current_root(),
            final(self).root_records() == old(self).root_records(),
            !final(self).awaiting(),
            !old(self).awaiting() ==> e is None,
            old(self).awaiting() ==> (e matches Some(FileSystemError::ReadFailed { path, source: s })
                && path@ == old(self).awaited_path() && s == source),
    {
        match self.pending.take() {
            Some(path) => Some(FileSystemError::ReadFailed { path, source }),
            None => None,
        }
    }

    /// Ends the walk of the current input, and tells how many files it
    /// yielded. An input that yielded none is noted as empty and reported
    /// as a failure of its own; the run goes on.
    pub fn leave_root(&mut self) -> (r: Result<usize, TraversalError>)
        requires
            old(self).wf(),
        ensures
            final(self).wf(),
            final(self).policy() == old(self).policy(),
            final(self).root() == old(self).root(),
            final(self).seen() == old(self).seen(),
            final(self).log() == old(self).log(),
            final(self).walk() == old(self).walk(),
            final(self).walk_start() == old(self).walk_start(),
            final(self).current_root() == old(self).current_root(),
            final(self).root_records() == old(self).root_records(),
            final(self).awaiting() == old(self).awaiting(),
            final(self).inaccessible() == old(self).inaccessible(),
            old(self).root_records() > 0 ==> r == Ok::<usize, TraversalError>(
                old(self).root_records() as usize,
            ) && final(self).empty_roots() == old(self).empty_roots(),
            old(self).root_records() == 0 ==> (r matches Err(TraversalError::NoFilesFound(name))
                && name@ == old(self).current_root()) && final(self).empty_roots() == old(
                self,
            ).empty_roots().push(old(self).current_root()),
    {
        let count = self.records.len() - self.root_start;
        if count == 0 {
            let ghost before = self.empty_roots.deep_view();
            self.empty_roots.push(self.current.clone());
            assert(self.empty_roots.deep_view() =~= before.push(self.current@));
            return Err(TraversalError::NoFilesFound(self.current.clone()));
        }
        Ok(count)
    }

    /// Ends the run. It succeeds if at least one file was written, and
    /// fails, naming the inputs found empty, if none was.
    pub fn finish(&self) -> (r: Result<TraversalOutcome, TraversalError>)
        requires
            self.wf(),
        ensures
            self.log().len() > 0 ==> (r matches Ok(outcome) && outcome.files_written
                == self.log().len() && outcome.empty_roots.deep_view() == self.empty_roots()
                && outcome.inaccessible.deep_view() == self.inaccessible()),
            self.log().len() == 0 ==> (r matches Err(TraversalError::NoFilesFound(names))
                && names@ == joined_names(self.empty_roots())),
    {
        if self.records.len() > 0 {
            return Ok(
                TraversalOutcome {
                    files_written: self.records.len(),
                    empty_roots: clone_names(&self.empty_roots),
                    inaccessible: clone_names(&self.inaccessible),
                },
            );
        }
        Err(TraversalError::NoFilesFound(join_names(&self.empty_roots)))
    }
}

/// A copy of a list of names.
pub fn clone_names(names: &Vec<String>) -> (out: Vec<String>)
    ensures
        out.deep_view() == names.deep_view(),
{
    let mut out: Vec<String> = Vec::new();
    let mut i: usize = 0;
    while i < names.len()
        invariant
            i <= names@.len(),
            out@.len() == i,
            forall|k: int| 0 <= k < i ==> (#[trigger] out@[k])@ == names@[k]@,
        decreases names@.len() - i,
    {
        out.push(names[i].clone());
        i += 1;
    }
    assert(out.deep_view() =~= names.deep_view());
    out
}

/// The names of `names`, separated by a comma and a space.
pub fn join_names(names: &Vec<String>) -> (out: String)
    ensures
        out@ == joined_names(names.deep_view()),
{
    let mut out = String::new();
    let mut i: usize = 0;
    let ghost all = names.deep_view();
    assert(all.take(0) =~= Seq::<Seq<char>>::empty());
    while i < names.len()
        invariant
            i <= names@.len(),
            all == names.deep_view(),
            out@ == joined_names(all.take(i as int)),
        decreases names@.len() - i,
    {
        proof {
            let upto = all.take(i + 1);
            assert(upto.drop_last() =~= all.take(i as int));
            assert(upto.last() == names@[i as int]@);
            if i == 0 {
                assert(Seq::<char>::empty() + names@[0]@ =~= names@[0]@);
            }
        }
        if i > 0 {
            out.push(',');
            out.push(' ');
        }
        out.append(names[i].as_str());
        proof {
            if i > 0 {
                assert(out@ =~= joined_names(all.take(i as int)) + seq![',', ' ']
                    + names@[i as int]@);
            }
        }
        i += 1;
    }
    assert(all.take(i as int) =~= all);
    out
}

impl Walker {
    /// The configuration for traversing `input`.
    pub fn new(root: &str, input: &str, output: &str, exclude_patterns: &[String]) -> (w: Walker)
        ensures
            w.root@ == root@,
            w.input@ == input@,
            w.output@ == output@,
            w.exclude_patterns.deep_view() == exclude_patterns.deep_view(),
    {
        let mut patterns: Vec<String> = Vec::new();
        let mut i: usize = 0;
        while i < exclude_patterns.len()
            invariant
                i <= exclude_patterns@.len(),
                patterns@.len() == i,
                forall|k: int| 0 <= k < i ==> (#[trigger] patterns@[k])@ == exclude_patterns@[k]@,
            decreases exclude_patterns@.len() - i,
        {
            patterns.push(exclude_patterns[i].clone());
            i += 1;
        }
        assert(patterns.deep_view() =~= exclude_patterns.deep_view());
        Walker {
            root: root.to_owned(),
            input: input.to_owned(),
            output: output.to_owned(),
            exclude_patterns: patterns,
        }
    }

    /// Prepares the traversal of the input: checks that it exists,
    /// compiles the exclusion rules, and enters the input. `input_exists`
    /// is what the file system answered for the input; `ignore_file` is the
    /// text of the root's ignore file, if it has one.
    pub fn process_dir(&self, run_args: &RunArgs, input_exists: bool, ignore_file: Option<&str>) -> (r:
        Result<Traversal, TreeClipError>)
        ensures
            match r {
                Ok(t) => {
                    &&& input_exists
                    &&& build_result(
                        self.root@,
                        ignore_file,
                        self.exclude_patterns.deep_view(),
                        Ok(t.policy().matcher),
                    )
                    &&& t.wf()
                    &&& t.policy().skip_hidden == run_args.skip_hidden
                    &&& t.policy().output == self.output@
                    &&& t.root() == self.root@
                    &&& t.current_root() == self.input@
                    &&& t.seen().len() == 0
                    &&& t.log().len() == 0
                    &&& t.empty_roots().len() == 0
                    &&& t.inaccessible().len() == 0
                    &&& !t.awaiting()
                },
                Err(TreeClipError::FileSystem(FileSystemError::PathNotFound(path))) => {
                    !input_exists && path@ == self.input@
                },
                Err(TreeClipError::Pattern(e)) => {
                    &&& input_exists
                    &&& build_result(
                        self.root@,
                        ignore_file,
                        self.exclude_patterns.deep_view(),
                        Err(e),
                    )
                },
                Err(_) => false,
            },
    {
        match validate_path_exists(self.input.as_str(), input_exists) {
            Ok(()) => {},
            Err(e) => {
                return Err(TreeClipError::FileSystem(e));
            },
        }
        match ExcludeMatcher::new(
            self.root.as_str(),
            ignore_file,
            self.exclude_patterns.as_slice(),
        ) {
            Ok(matcher) => {
                let mut t = Traversal::with_matcher(
                    matcher,
                    self.root.as_str(),
                    self.output.as_str(),
                    run_args.skip_hidden,
                );
                t.enter_root(self.input.as_str());
                Ok(t)
            },
            Err(e) => Err(TreeClipError::Pattern(e)),
        }
    }
}

/// Nothing is left out: once every awaited content has been handed over,
/// each file that the filter let pass, with everything above it, and that
/// is not the output itself, has exactly one record in the bundle.
pub proof fn lemma_chosen_files_have_one_record(t: Traversal, j: int)
    requires
        t.wf(),
        t.complete(),
        !t.awaiting(),
        t.policy().selects(t.seen(), j),
    ensures
        exists|k: int|
            {
                &&& 0 <= k < t.log().len()
                &&& (#[trigger] t.log()[k]).source == j
                &&& t.log()[k].path == relative_to(t.root(), t.seen()[j].entry.path)
                &&& forall|other: int|
                    0 <= other < t.log().len() && (#[trigger] t.log()[other]).source == j ==> other
                        == k
            },
{
    let log = t.log();
    assert(recorded(log, j));
    let k = choose|k: int| 0 <= k < log.len() && (#[trigger] log[k]).source == j;
    assert forall|other: int| 0 <= other < log.len() && (#[trigger] log[other]).source
        == j implies other == k by {
        if other < k {
            assert(log[other].source < log[k].source);
        } else if k < other {
            assert(log[k].source < log[other].source);
        }
    }
}

/// The bundle holds the chosen files and nothing else, in the order of
/// the walk: once every awaited content has been handed over, an entry has
/// a record exactly if it was chosen, and a record that comes later is for
/// an entry that was met later.
pub proof fn lemma_bundle_is_the_selection(t: Traversal)
    requires
        t.wf(),
        t.complete(),
        !t.awaiting(),
    ensures
        forall|j: int|
            0 <= j < t.seen().len() ==> (recorded(t.log(), j) <==> #[trigger] t.policy().selects(
                t.seen(),
                j,
            )),
        forall|a: int, b: int|
            0 <= a < b < t.log().len() ==> (#[trigger] t.log()[a]).source < (#[trigger] t.log()[b]).source,
{
    let log = t.log();
    assert forall|j: int| 0 <= j < t.seen().len() implies (recorded(log, j)
        <==> #[trigger] t.policy().selects(t.seen(), j)) by {
        if recorded(log, j) {
            let k = choose|k: int| 0 <= k < log.len() && (#[trigger] log[k]).source == j;
            assert(t.policy().selects(t.seen(), log[k].source));
        }
    }
}

/// Every record is for a file that was chosen: a regular file that the
/// filter let pass, below no entry that it turned away.
pub proof fn lemma_records_are_for_chosen_files(t: Traversal, k: int)
    requires
        t.wf(),
        0 <= k < t.log().len(),
    ensures
        t.policy().selects(t.seen(), t.log()[k].source),
        t.log()[k].path == relative_to(t.root(), t.seen()[t.log()[k].source].entry.path),
{
}

/// Exclusion prunes: whatever lies below an entry that the filter turned
/// away has no record, whether or not the filter would turn it away too.
pub proof fn lemma_nothing_below_a_rejected_entry_is_recorded(t: Traversal, i: int, j: int)
    requires
        t.wf(),
        below(t.seen(), i, j),
        t.policy().rejects(t.seen()[i].entry),
    ensures
        !recorded(t.log(), j),
        t.policy().verdict(t.seen(), j) == Decision::Skip,
{
    assert(t.policy().prunes(t.seen(), j));
    if recorded(t.log(), j) {
        let k = choose|k: int| 0 <= k < t.log().len() && (#[trigger] t.log()[k]).source == j;
        assert(t.policy().selects(t.seen(), t.log()[k].source));
    }
}

/// An entry that the filter turns away has no record.
pub proof fn lemma_rejected_entries_are_not_recorded(t: Traversal, j: int)
    requires
        t.wf(),
        0 <= j < t.seen().len(),
        t.policy().rejects(t.seen()[j].entry),
    ensures
        !recorded(t.log(), j),
{
    if recorded(t.log(), j) {
        let k = choose|k: int| 0 <= k < t.log().len() && (#[trigger] t.log()[k]).source == j;
        assert(t.policy().selects(t.seen(), t.log()[k].source));
    }
}

/// The bundle never holds itself: an entry whose path is the output has no
/// record, however often the traversal is run.
pub proof fn lemma_output_is_never_recorded(t: Traversal, j: int)
    requires
        t.wf(),
        0 <= j < t.seen().len(),
        t.seen()[j].entry.path == t.policy().output,
    ensures
        !recorded(t.log(), j),
        t.policy().verdict(t.seen(), j) != Decision::Read,
{
    if recorded(t.log(), j) {
        let k = choose|k: int| 0 <= k < t.log().len() && (#[trigger] t.log()[k]).source == j;
        assert(t.policy().selects(t.seen(), t.log()[k].source));
    }
}

/// An input yields no record exactly when its walk met no file to choose:
/// that is when leaving it reports that no files were found.
pub proof fn lemma_empty_root(t: Traversal)
    requires
        t.wf(),
        t.complete(),
        !t.awaiting(),
    ensures
        t.root_records() == 0 <==> (forall|j: int|
            t.walk_start() <= j < t.seen().len() ==> !#[trigger] t.policy().selects(t.seen(), j)),
{
    let log = t.log();
    let seen = t.seen();
    if t.root_records() > 0 {
        let k = log.len() - 1;
        assert(t.policy().selects(seen, log[k].source));
        assert(log[k].source >= t.walk_start());
    } else {
        assert forall|j: int| t.walk_start() <= j < seen.len() implies !#[trigger] t.policy().selects(
            seen,
            j,
        ) by {
            if t.policy().selects(seen, j) {
                assert(recorded(log, j));
                let k = choose|k: int| 0 <= k < log.len() && (#[trigger] log[k]).source == j;
                assert(k >= t.root_start);
            }
        }
    }
}

} // verus!
