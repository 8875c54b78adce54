//! Commit records and the parser that reads them from the log tool's output.

use vstd::prelude::*;

use crate::text::{
    chars_of, join_with, lemma_join_split, lemma_split_from_nonempty, split_chars, split_on, string_from_chars, views_of,
};

verus! {

/// One entry of the log: a change with its short hash, summary, relative
/// date and author.
pub struct Commit {
    pub hash: String,
    pub message: String,
    pub date: String,
    pub author: String,
}

/// The four fields of a record, as character sequences.
pub ghost struct CommitView {
    pub hash: Seq<char>,
    pub message: Seq<char>,
    pub date: Seq<char>,
    pub author: Seq<char>,
}

impl View for Commit {
    type V = CommitView;

    open spec fn view(&self) -> CommitView {
        CommitView {
            hash: self.hash@,
            message: self.message@,
            date: self.date@,
            author: self.author@,
        }
    }
}

/// A line of the log output that does not hold four fields.
#[derive(Debug, Clone, Copy, PartialEq, Eq, Structural)]
pub struct ParseError {
    /// Index, from zero, of the first such line.
    pub line: usize,
}

/// The separator between the fields of one line.
pub open spec fn field_delimiter() -> Seq<char> {
    seq!['-', '_', '-']
}

/// `p` without one trailing carriage return, if it has one.
pub open spec fn strip_cr(p: Seq<char>) -> Seq<char> {
    if p.len() > 0 && p.last() == '\r' {
        p.drop_last()
    } else {
        p
    }
}

/// The lines of `s`: it is cut at each line feed; a line that a line feed
/// ends loses one carriage return before it; an empty piece after the last
/// line feed (or an empty text) is no line.
pub open spec fn lines_of(s: Seq<char>) -> Seq<Seq<char>> {
    let pieces = split_on(s, seq!['\n']);
    let n = if pieces.len() > 0 && pieces.last().len() == 0 {
        pieces.len() - 1
    } else {
        pieces.len() as int
    };
    Seq::new(n as nat, |k: int| if k < pieces.len() - 1 { strip_cr(pieces[k]) } else { pieces[k] })
}

/// The fields of one line.
pub open spec fn fields_of(line: Seq<char>) -> Seq<Seq<char>> {
    split_on(line, field_delimiter())
}

/// A line holds at least the four fields of a record.
pub open spec fn well_formed(line: Seq<char>) -> bool {
    fields_of(line).len() >= 4
}

/// The record that a well-formed line describes: its first four fields,
/// verbatim.
pub open spec fn record_of(line: Seq<char>) -> CommitView {
    let f = fields_of(line);
    CommitView { hash: f[0], message: f[1], date: f[2], author: f[3] }
}

/// What parsing `raw` gives: one record per line, in order, or the index of
/// the first line that is not well-formed.
pub open spec fn parsed(raw: Seq<char>, r: Result<Seq<CommitView>, ParseError>) -> bool {
    let lines = lines_of(raw);
    match r {
        Ok(v) => {
            &&& forall|k: int| 0 <= k < lines.len() ==> well_formed(#[trigger] lines[k])
            &&& v.len() == lines.len()
            &&& forall|k: int| 0 <= k < v.len() ==> v[k] == record_of(#[trigger] lines[k])
        },
        Err(e) => {
            &&& e.line < lines.len()
            &&& !well_formed(lines[e.line as int])
            &&& forall|k: int| 0 <= k < e.line ==> well_formed(#[trigger] lines[k])
        },
    }
}

/// A log whose lines are all well-formed parses to one record per line, in
/// the lines' order, each field taken verbatim from its line: the line's
/// fields, joined with the delimiter, give the line back.
pub proof fn lemma_well_formed_log(raw: Seq<char>, r: Result<Seq<CommitView>, ParseError>)
    requires
        parsed(raw, r),
        forall|k: int| 0 <= k < lines_of(raw).len() ==> well_formed(#[trigger] lines_of(raw)[k]),
    ensures
        r is Ok,
        r->Ok_0.len() == lines_of(raw).len(),
        forall|k: int|
            0 <= k < lines_of(raw).len() ==> {
                let f = #[trigger] fields_of(lines_of(raw)[k]);
                &&& r->Ok_0[k] == CommitView { hash: f[0], message: f[1], date: f[2], author: f[3] }
                &&& join_with(f, field_delimiter()) == lines_of(raw)[k]
            },
{
    let lines = lines_of(raw);
    if r is Err {
        assert(well_formed(lines[r->Err_0.line as int]));
    }
    assert forall|k: int| 0 <= k < lines.len() implies join_with(
        #[trigger] fields_of(lines[k]),
        field_delimiter(),
    ) == lines[k] by {
        lemma_join_split(lines[k], field_delimiter());
    }
}

/// A single line with fewer than four fields fails the whole parse, whatever
/// the other lines hold; the error names that line or an earlier bad one.
pub proof fn lemma_malformed_line_fails(raw: Seq<char>, r: Result<Seq<CommitView>, ParseError>, k: int)
    requires
        parsed(raw, r),
        0 <= k < lines_of(raw).len(),
        !well_formed(lines_of(raw)[k]),
    ensures
        r is Err,
        r->Err_0.line <= k,
{
}

/// An empty output has no lines and parses to no records.
pub proof fn lemma_empty_output(r: Result<Seq<CommitView>, ParseError>)
    requires
        parsed(Seq::empty(), r),
    ensures
        lines_of(Seq::empty()).len() == 0,
        r == Ok::<Seq<CommitView>, ParseError>(Seq::empty()),
{
    if r is Ok {
        assert(r->Ok_0 =~= Seq::empty());
    }
}

/// The views of a sequence of records.
pub open spec fn commit_views(v: Seq<Commit>) -> Seq<CommitView> {
    v.map_values(|c: Commit| c@)
}

/// The result of a parse, seen through the records' views.
pub open spec fn result_view(r: Result<Vec<Commit>, ParseError>) -> Result<Seq<CommitView>, ParseError> {
    match r {
        Ok(v) => Ok(commit_views(v@)),
        Err(e) => Err(e),
    }
}

fn strip_cr_exec(p: &[char]) -> (r: &[char])
    ensures
        r@ == strip_cr(p@),
{
    if p.len() > 0 && p[p.len() - 1] == '\r' {
        let r = &p[0..p.len() - 1];
        assert(r@ =~= p@.drop_last());
        r
    } else {
        p
    }
}

/// Parses the log tool's output, one record per line with its fields
/// separated by `-_-`. Fails on the first line with fewer than four fields;
/// fields past the fourth are ignored.
pub fn parse_log(raw: &str) -> (r: Result<Vec<Commit>, ParseError>)
    ensures
        parsed(raw@, result_view(r)),
{
    let chars = chars_of(raw);
    let newline = vec!['\n'];
    assert(newline@ =~= seq!['\n']);
    let pieces = split_chars(chars.as_slice(), newline.as_slice());
    let ghost pv = views_of(pieces@);
    proof {
        lemma_split_from_nonempty(raw@, seq!['\n'], 0, 0);
    }
    let n: usize = if pieces[pieces.len() - 1].len() == 0 {
        pieces.len() - 1
    } else {
        pieces.len()
    };
    let ghost lines = lines_of(raw@);
    assert(lines.len() == n);
    let delim = vec!['-', '_', '-'];
    assert(delim@ =~= field_delimiter());
    let mut out: Vec<Commit> = Vec::new();
    let mut k: usize = 0;
    while k < n
        invariant
            lines == lines_of(raw@),
            pv == views_of(pieces@),
            pv == split_on(raw@, seq!['\n']),
            lines.len() == n,
            n <= pieces@.len(),
            delim@ == field_delimiter(),
            k <= n,
            out@.len() == k,
            forall|j: int| 0 <= j < k ==> well_formed(#[trigger] lines[j]),
            forall|j: int| 0 <= j < k ==> out@[j]@ == record_of(#[trigger] lines[j]),
        decreases n - k,
    {
        let line: &[char] = if k < pieces.len() - 1 {
            strip_cr_exec(pieces[k].as_slice())
        } else {
            pieces[k].as_slice()
        };
        let fields = split_chars(line, delim.as_slice());
        if fields.len() < 4 {
            return Err(ParseError { line: k });
        }
        let c = Commit {
            hash: string_from_chars(fields[0].as_slice()),
            message: string_from_chars(fields[1].as_slice()),
            date: string_from_chars(fields[2].as_slice()),
            author: string_from_chars(fields[3].as_slice()),
        };
        assert(c@ == record_of(lines[k as int]));
        out.push(c);
        k = k + 1;
    }
    Ok(out)
}

} // verus!
