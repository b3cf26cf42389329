//! The format of the bundle: one record per file, a header line and the
//! file's content, records separated by one blank line.

use crate::text::{trim_end, trimmed_end};
use vstd::prelude::*;
use vstd::string::StringExecFns;

verus! {

/// One record of the bundle as a mathematical value: which entry of the
/// walk it is for, the path shown in its header, and the content read.
pub struct RecordView {
    pub source: int,
    pub path: Seq<char>,
    pub content: Seq<char>,
}

/// The marker that begins a header line.
pub open spec fn header_mark() -> Seq<char> {
    seq!['=', '=', '>', ' ']
}

/// The text of one record: the header line `==> path`, then the content
/// without its trailing whitespace, then one line feed.
pub open spec fn record_text(path: Seq<char>, content: Seq<char>) -> Seq<char> {
    header_mark() + path + seq!['\n'] + trimmed_end(content) + seq!['\n']
}

/// What is written for a record: its text, after a blank line unless it is
/// the first record of the bundle.
pub open spec fn chunk_text(first: bool, path: Seq<char>, content: Seq<char>) -> Seq<char> {
    if first {
        record_text(path, content)
    } else {
        seq!['\n'] + record_text(path, content)
    }
}

/// The whole bundle for a list of records.
pub open spec fn artifact_of(records: Seq<RecordView>) -> Seq<char>
    decreases records.len(),
{
    if records.len() == 0 {
        Seq::empty()
    } else {
        artifact_of(records.drop_last()) + chunk_text(
            records.len() == 1,
            records.last().path,
            records.last().content,
        )
    }
}

/// Renders one record for writing. `first` says whether it opens the
/// bundle; every later record is set off by one blank line.
pub fn write_file_content(first: bool, path: &str, content: &str) -> (out: String)
    ensures
        out@ == chunk_text(first, path@, content@),
{
    let mut out = String::new();
    if !first {
        out.push('\n');
    }
    out.push('=');
    out.push('=');
    out.push('>');
    out.push(' ');
    out.append(path);
    out.push('\n');
    let body = trim_end(content);
    out.append(body.as_str());
    out.push('\n');
    assert(out@ =~= chunk_text(first, path@, content@));
    out
}

/// A bundle begins with a header, not with a blank line.
pub proof fn lemma_artifact_begins_with_header(records: Seq<RecordView>)
    requires
        records.len() > 0,
    ensures
        header_mark().is_prefix_of(artifact_of(records)),
    decreases records.len(),
{
    if records.len() == 1 {
        assert(artifact_of(records.drop_last()) =~= Seq::<char>::empty());
        assert(artifact_of(records) =~= record_text(records[0].path, records[0].content));
    } else {
        lemma_artifact_begins_with_header(records.drop_last());
    }
}

/// Appending a record to a bundle that already holds one puts exactly one
/// blank line between the two.
pub proof fn lemma_artifact_grows(records: Seq<RecordView>, next: RecordView)
    ensures
        artifact_of(records.push(next)) == artifact_of(records) + chunk_text(
            records.len() == 0,
            next.path,
            next.content,
        ),
{
    assert(records.push(next).drop_last() =~= records);
}

} // verus!
