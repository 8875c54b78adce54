//! The frames the viewer draws: each record as a line of styled spans, and
//! the terminal operations that redraw the window in place.

use vstd::prelude::*;

use crate::record::{commit_views, Commit, CommitView};
use crate::viewport::Viewport;

verus! {

/// How a span of text is shown.
#[derive(Debug, Clone, Copy, PartialEq, Eq, Structural)]
pub enum Style {
    Plain,
    Dim,
    Green,
    Blue,
    Yellow,
}

/// A piece of text in one style.
pub struct Span {
    pub text: String,
    pub style: Style,
}

/// One terminal operation of a redraw.
pub enum TermOp {
    /// Move the cursor up this many rows.
    MoveUp(u16),
    /// Clear from the cursor to the end of the screen.
    ClearDown,
    /// Move the cursor to the first column.
    ColumnStart,
    /// Write a line of spans and end it.
    Line(Vec<Span>),
}

pub open spec fn span_view(s: Span) -> (Seq<char>, Style) {
    (s.text@, s.style)
}

pub open spec fn spans_view(v: Seq<Span>) -> Seq<(Seq<char>, Style)> {
    v.map_values(|s: Span| span_view(s))
}

/// A record's line: `(hash)` dimmed, ` - `, the message, ` (`, the date in
/// green, `) ~ `, the author in blue.
pub open spec fn line_spans(c: CommitView) -> Seq<(Seq<char>, Style)> {
    seq![
        (seq!['('] + c.hash + seq![')'], Style::Dim),
        (seq![' ', '-', ' '], Style::Plain),
        (c.message, Style::Plain),
        (seq![' ', '('], Style::Plain),
        (c.date, Style::Green),
        (seq![')', ' ', '~', ' '], Style::Plain),
        (c.author, Style::Blue),
    ]
}

fn span(text: String, style: Style) -> (r: Span)
    ensures
        span_view(r) == (text@, style),
{
    Span { text, style }
}

fn literal(s: &str) -> (r: String)
    ensures
        r@ == s@,
{
    String::from_str(s)
}

/// The spans of one record's line.
pub fn record_line(c: &Commit) -> (r: Vec<Span>)
    ensures
        spans_view(r@) == line_spans(c@),
{
    proof {
        reveal_strlit("(");
        reveal_strlit(")");
        reveal_strlit(" - ");
        reveal_strlit(" (");
        reveal_strlit(") ~ ");
    }
    assert("("@ =~= seq!['(']);
    assert(")"@ =~= seq![')']);
    assert(" - "@ =~= seq![' ', '-', ' ']);
    assert(" ("@ =~= seq![' ', '(']);
    assert(") ~ "@ =~= seq![')', ' ', '~', ' ']);
    let mut hash = literal("(");
    hash.append(c.hash.as_str());
    hash.append(")");
    let mut r: Vec<Span> = Vec::new();
    r.push(span(hash, Style::Dim));
    r.push(span(literal(" - "), Style::Plain));
    r.push(span(c.message.clone(), Style::Plain));
    r.push(span(literal(" ("), Style::Plain));
    r.push(span(c.date.clone(), Style::Green));
    r.push(span(literal(") ~ "), Style::Plain));
    r.push(span(c.author.clone(), Style::Blue));
    assert(spans_view(r@) =~= line_spans(c@));
    r
}

/// The lines of the records shown, one per record, in order.
pub fn window_lines(v: &Viewport) -> (r: Vec<Vec<Span>>)
    requires
        v.wf(),
    ensures
        r@.len() == v@.visible().len(),
        forall|j: int| 0 <= j < r@.len() ==> spans_view(#[trigger] r@[j]@) == line_spans(v@.visible()[j]),
{
    let shown = v.visible();
    let mut r: Vec<Vec<Span>> = Vec::new();
    let mut j: usize = 0;
    while j < shown.len()
        invariant
            commit_views(shown@) == v@.visible(),
            j <= shown@.len(),
            r@.len() == j,
            forall|i: int| 0 <= i < j ==> spans_view(#[trigger] r@[i]@) == line_spans(v@.visible()[i]),
        decreases shown@.len() - j,
    {
        r.push(record_line(&shown[j]));
        j = j + 1;
    }
    r
}

/// The operations that redraw the window in place: up by the window's
/// height, clear to the end of the screen, then for each record shown the
/// first column and its line, and the first column once more.
pub fn redraw(v: &Viewport) -> (r: Vec<TermOp>)
    requires
        v.wf(),
    ensures
        r@.len() == 2 * v@.visible().len() + 3,
        r@[0] == TermOp::MoveUp(v@.window_size as u16),
        r@[1] is ClearDown,
        forall|j: int| 0 <= j < v@.visible().len() ==> (#[trigger] r@[2 + 2 * j]) is ColumnStart,
        forall|j: int|
            0 <= j < v@.visible().len() ==> (#[trigger] r@[3 + 2 * j]) is Line && spans_view(
                r@[3 + 2 * j]->Line_0@,
            ) == line_spans(v@.visible()[j]),
        r@[r@.len() - 1] is ColumnStart,
{
    proof {
        v.lemma_wf();
    }
    let shown = v.visible();
    let mut r: Vec<TermOp> = Vec::new();
    r.push(TermOp::MoveUp(v.window_size() as u16));
    r.push(TermOp::ClearDown);
    let mut j: usize = 0;
    while j < shown.len()
        invariant
            commit_views(shown@) == v@.visible(),
            0 < v@.window_size <= u16::MAX,
            j <= shown@.len(),
            r@.len() == 2 * j + 2,
            r@[0] == TermOp::MoveUp(v@.window_size as u16),
            r@[1] is ClearDown,
            forall|i: int| 0 <= i < j ==> (#[trigger] r@[2 + 2 * i]) is ColumnStart,
            forall|i: int|
                0 <= i < j ==> (#[trigger] r@[3 + 2 * i]) is Line && spans_view(
                    r@[3 + 2 * i]->Line_0@,
                ) == line_spans(v@.visible()[i]),
        decreases shown@.len() - j,
    {
        r.push(TermOp::ColumnStart);
        r.push(TermOp::Line(record_line(&shown[j])));
        j = j + 1;
    }
    r.push(TermOp::ColumnStart);
    r
}

} // verus!
