//! What the log is asked for: the filter as the user gave it, the filter
//! once resolved, the arguments handed to the log tool, and the header line
//! that states the filter.

use vstd::prelude::*;

use crate::render::{span_view, spans_view, Span, Style};
use crate::text::string_from_chars;

verus! {

/// How many records are asked for when no limit is given.
pub const DEFAULT_LIMIT: u64 = 10;

/// The filter as the user gave it.
pub struct CommitHistoryOptions {
    pub limit: Option<u64>,
    pub author: Option<String>,
    pub branch: Option<String>,
    pub file: Option<String>,
    /// Look at every branch rather than the current one.
    pub all: bool,
}

/// The filter once resolved: an empty author or path means no filter; the
/// branch is the current one unless another was named or every branch was
/// asked for.
pub struct QueryFilter {
    pub limit: u64,
    pub author: String,
    pub branch: String,
    pub path: String,
}

/// The text of an optional string, empty when absent.
pub open spec fn text_or_empty(s: Option<String>) -> Seq<char> {
    match s {
        Some(t) => t@,
        None => Seq::empty(),
    }
}

fn take_text(s: Option<String>) -> (r: String)
    ensures
        r@ == text_or_empty(s),
{
    match s {
        Some(t) => t,
        None => String::new(),
    }
}

/// The decimal digit for `d` (below ten).
pub open spec fn digit_char(d: nat) -> char {
    if d == 0 { '0' }
    else if d == 1 { '1' }
    else if d == 2 { '2' }
    else if d == 3 { '3' }
    else if d == 4 { '4' }
    else if d == 5 { '5' }
    else if d == 6 { '6' }
    else if d == 7 { '7' }
    else if d == 8 { '8' }
    else { '9' }
}

/// `n` in decimal, without leading zeros.
pub open spec fn decimal(n: nat) -> Seq<char>
    decreases n,
{
    if n < 10 {
        seq![digit_char(n)]
    } else {
        decimal(n / 10) + seq![digit_char(n % 10)]
    }
}

fn digit_char_exec(d: u64) -> (r: char)
    requires
        d < 10,
    ensures
        r == digit_char(d as nat),
{
    if d == 0 { '0' }
    else if d == 1 { '1' }
    else if d == 2 { '2' }
    else if d == 3 { '3' }
    else if d == 4 { '4' }
    else if d == 5 { '5' }
    else if d == 6 { '6' }
    else if d == 7 { '7' }
    else if d == 8 { '8' }
    else { '9' }
}

fn push_decimal(n: u64, out: &mut Vec<char>)
    ensures
        final(out)@ == old(out)@ + decimal(n as nat),
    decreases n,
{
    if n >= 10 {
        push_decimal(n / 10, out);
    }
    out.push(digit_char_exec(n % 10));
    assert(final(out)@ =~= old(out)@ + decimal(n as nat));
}

/// The arguments handed to the log tool for a filter: one record per line,
/// fields separated by `-_-` (short hash, subject, relative date, author),
/// then the limit, the author filter and the branch, each present even when
/// empty, and the path only when there is one.
pub open spec fn log_args_of(f: &QueryFilter) -> Seq<Seq<char>> {
    seq![
        "log"@,
        "--oneline"@,
        "--decorate"@,
        "--color"@,
        "--pretty=format:%h-_-%s-_-%cr-_-%an"@,
        "--full-history"@,
        "-"@ + decimal(f.limit as nat),
        "--author="@ + f.author@,
        f.branch@,
    ] + if f.path@.len() > 0 {
        seq![f.path@]
    } else {
        Seq::empty()
    }
}

/// The header that states the filter in effect.
pub open spec fn header_of(f: &QueryFilter) -> Seq<(Seq<char>, Style)> {
    seq![("Showing commits"@, Style::Plain)] + (if f.path@.len() > 0 {
        seq![(" for "@, Style::Plain), (f.path@, Style::Green)]
    } else {
        Seq::empty()
    }) + (if f.author@.len() > 0 {
        seq![(" made by "@, Style::Plain), (f.author@, Style::Blue)]
    } else {
        Seq::empty()
    }) + seq![(" on "@, Style::Plain), (f.branch@, Style::Yellow)]
}

impl CommitHistoryOptions {
    /// No branch was named (or an empty one) and not every branch was asked
    /// for: the current branch must be looked up.
    pub open spec fn needs_current_branch_spec(&self) -> bool {
        text_or_empty(self.branch).len() == 0 && !self.all
    }

    /// Whether resolving needs the name of the current branch.
    pub fn needs_current_branch(&self) -> (r: bool)
        ensures
            r == self.needs_current_branch_spec(),
    {
        let named = match &self.branch {
            Some(b) => !b.as_str().is_empty(),
            None => false,
        };
        !named && !self.all
    }

    /// The filter in effect; `current_branch` is used only where
    /// `needs_current_branch` holds.
    pub fn resolve(self, current_branch: String) -> (r: QueryFilter)
        ensures
            r.limit == match self.limit {
                Some(l) => l,
                None => DEFAULT_LIMIT,
            },
            r.author@ == text_or_empty(self.author),
            r.branch@ == if self.needs_current_branch_spec() {
                current_branch@
            } else {
                text_or_empty(self.branch)
            },
            r.path@ == text_or_empty(self.file),
    {
        let needs = self.needs_current_branch();
        let limit = match self.limit {
            Some(l) => l,
            None => DEFAULT_LIMIT,
        };
        let branch = if needs {
            current_branch
        } else {
            take_text(self.branch)
        };
        QueryFilter {
            limit,
            author: take_text(self.author),
            branch,
            path: take_text(self.file),
        }
    }
}

fn arg(s: &str) -> (r: String)
    ensures
        r@ == s@,
{
    String::from_str(s)
}

fn styled(s: &str, style: Style) -> (r: Span)
    ensures
        span_view(r) == (s@, style),
{
    Span { text: String::from_str(s), style }
}

impl QueryFilter {
    /// The arguments handed to the log tool.
    pub fn log_args(&self) -> (r: Vec<String>)
        ensures
            r@.map_values(|a: String| a@) == log_args_of(self),
    {
        let mut digits: Vec<char> = Vec::new();
        push_decimal(self.limit, &mut digits);
        assert(digits@ =~= decimal(self.limit as nat));
        let mut limit = arg("-");
        limit.append(string_from_chars(digits.as_slice()).as_str());
        let mut author = arg("--author=");
        author.append(self.author.as_str());
        let mut r: Vec<String> = Vec::new();
        r.push(arg("log"));
        r.push(arg("--oneline"));
        r.push(arg("--decorate"));
        r.push(arg("--color"));
        r.push(arg("--pretty=format:%h-_-%s-_-%cr-_-%an"));
        r.push(arg("--full-history"));
        r.push(limit);
        r.push(author);
        r.push(self.branch.clone());
        if !self.path.as_str().is_empty() {
            r.push(self.path.clone());
        }
        assert(r@.map_values(|a: String| a@) =~= log_args_of(self));
        r
    }

    /// The header line: which path, whose commits and which branch.
    pub fn header(&self) -> (r: Vec<Span>)
        ensures
            spans_view(r@) == header_of(self),
    {
        let mut r: Vec<Span> = Vec::new();
        r.push(styled("Showing commits", Style::Plain));
        if !self.path.as_str().is_empty() {
            r.push(styled(" for ", Style::Plain));
            r.push(Span { text: self.path.clone(), style: Style::Green });
        }
        if !self.author.as_str().is_empty() {
            r.push(styled(" made by ", Style::Plain));
            r.push(Span { text: self.author.clone(), style: Style::Blue });
        }
        r.push(styled(" on ", Style::Plain));
        r.push(Span { text: self.branch.clone(), style: Style::Yellow });
        assert(spans_view(r@) =~= header_of(self));
        r
    }
}

} // verus!
