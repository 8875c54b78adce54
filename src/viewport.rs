//! The scroll state of the viewer and the key handling that drives it.

use vstd::prelude::*;

use crate::record::{commit_views, parse_log, parsed, result_view, Commit, CommitView, ParseError};

verus! {

/// How many records the viewer shows at once.
pub const WINDOW_SIZE: usize = 5;

/// The largest offset reachable by scrolling: `len - 1 - window`, or zero
/// when that is not positive. The last record stays out of reach when there
/// are more records than fit in the window; this boundary is kept on purpose.
pub open spec fn max_offset_of(len: nat, window: nat) -> nat {
    if len > window + 1 {
        (len - 1 - window) as nat
    } else {
        0
    }
}

/// The records, the window's height and the index of the first record shown.
pub ghost struct ViewportView {
    pub records: Seq<CommitView>,
    pub window_size: nat,
    pub offset: nat,
}

impl ViewportView {
    pub open spec fn max_offset(self) -> nat {
        max_offset_of(self.records.len(), self.window_size)
    }

    /// Index one past the last record shown: the window, clipped to the
    /// records that exist.
    pub open spec fn visible_end(self) -> nat {
        if self.offset + self.window_size <= self.records.len() {
            self.offset + self.window_size
        } else {
            self.records.len()
        }
    }

    /// The records shown; none when the offset is past the end.
    pub open spec fn visible(self) -> Seq<CommitView> {
        if self.offset <= self.records.len() {
            self.records.subrange(self.offset as int, self.visible_end() as int)
        } else {
            Seq::empty()
        }
    }

    /// The state after a step down: one further, unless at the ceiling.
    pub open spec fn scrolled_down(self) -> ViewportView {
        if self.offset < self.max_offset() {
            ViewportView { offset: self.offset + 1, ..self }
        } else {
            self
        }
    }

    /// The state after `k` steps down.
    pub open spec fn scrolled_down_times(self, k: nat) -> ViewportView
        decreases k,
    {
        if k == 0 {
            self
        } else {
            self.scrolled_down_times((k - 1) as nat).scrolled_down()
        }
    }

    /// The state after a step up: one back, unless at the top.
    pub open spec fn scrolled_up(self) -> ViewportView {
        if self.offset > 0 {
            ViewportView { offset: (self.offset - 1) as nat, ..self }
        } else {
            self
        }
    }
}

/// `k` steps down from an offset within reach move the window `k` records,
/// or to the ceiling if that comes first; the records and the window's
/// height stay. In particular, with no more records than the window plus
/// one, scrolling down never moves.
pub proof fn lemma_scroll_down_times(v: ViewportView, k: nat)
    requires
        v.offset <= v.max_offset(),
    ensures
        v.scrolled_down_times(k) == (ViewportView {
            offset: if v.offset + k <= v.max_offset() {
                v.offset + k
            } else {
                v.max_offset()
            },
            ..v
        }),
    decreases k,
{
    if k > 0 {
        lemma_scroll_down_times(v, (k - 1) as nat);
    }
}

/// A step up from the top changes nothing; otherwise it moves back by one,
/// so the offset never goes below zero.
pub proof fn lemma_scroll_up_floor(v: ViewportView)
    ensures
        v.offset == 0 ==> v.scrolled_up() == v,
        v.offset > 0 ==> v.scrolled_up().offset == v.offset - 1,
        v.scrolled_up().offset <= v.offset,
{
}

/// Whatever the offset, the records shown are a run of the records from the
/// offset, never more than a window of them.
pub proof fn lemma_visible_bounded(v: ViewportView)
    ensures
        v.visible().len() <= v.window_size,
        v.offset <= v.records.len() ==> v.visible() == v.records.subrange(
            v.offset as int,
            v.visible_end() as int,
        ),
        v.offset >= v.records.len() ==> v.visible().len() == 0,
{
}

/// The records of one session and the part of them on screen.
pub struct Viewport {
    records: Vec<Commit>,
    window_size: usize,
    offset: usize,
}

impl View for Viewport {
    type V = ViewportView;

    closed spec fn view(&self) -> ViewportView {
        ViewportView {
            records: commit_views(self.records@),
            window_size: self.window_size as nat,
            offset: self.offset as nat,
        }
    }
}

/// A key press, as far as the viewer tells keys apart.
#[derive(Debug, Clone, Copy, PartialEq, Eq, Structural)]
pub enum Key {
    Up,
    Down,
    Char(char),
    Other,
}

/// What the input loop does after a key.
#[derive(Debug, Clone, Copy, PartialEq, Eq, Structural)]
pub enum Step {
    /// The state may have changed: draw the window again.
    Redraw,
    /// Nothing changed: wait for the next key.
    Wait,
    /// Leave the loop.
    Quit,
}

/// How a session begins once the log has been read.
pub enum Opening {
    /// No records: say so and do not enter the loop.
    Empty,
    /// Records to browse, from the top.
    Browse(Viewport),
}

impl Viewport {
    /// The window is at least one record high and the offset within reach.
    pub closed spec fn wf(&self) -> bool {
        &&& 0 < self.window_size <= u16::MAX
        &&& self.offset <= max_offset_of(self.records@.len(), self.window_size as nat)
    }

    /// What a well-formed state guarantees, in terms of the view.
    pub proof fn lemma_wf(&self)
        requires
            self.wf(),
        ensures
            0 < self@.window_size <= u16::MAX,
            self@.offset <= self@.max_offset(),
            self@.offset <= self@.records.len(),
    {
    }

    /// A viewer on `records`, `WINDOW_SIZE` high, at the top.
    pub fn new(records: Vec<Commit>) -> (r: Viewport)
        ensures
            r.wf(),
            r@.records == commit_views(records@),
            r@.window_size == WINDOW_SIZE as nat,
            r@.offset == 0,
    {
        Viewport { records, window_size: WINDOW_SIZE, offset: 0 }
    }

    pub fn records(&self) -> (r: &Vec<Commit>)
        ensures
            commit_views(r@) == self@.records,
    {
        &self.records
    }

    pub fn len(&self) -> (r: usize)
        ensures
            r == self@.records.len(),
    {
        self.records.len()
    }

    pub fn window_size(&self) -> (r: usize)
        ensures
            r == self@.window_size,
    {
        self.window_size
    }

    pub fn offset(&self) -> (r: usize)
        ensures
            r == self@.offset,
    {
        self.offset
    }

    /// The largest offset that scrolling reaches.
    pub fn max_offset(&self) -> (r: usize)
        ensures
            r == self@.max_offset(),
    {
        if self.records.len() > self.window_size && self.records.len() - self.window_size > 1 {
            self.records.len() - 1 - self.window_size
        } else {
            0
        }
    }

    /// Moves the window one record down, unless it is at the ceiling.
    pub fn scroll_down(&mut self)
        requires
            old(self).wf(),
        ensures
            final(self).wf(),
            final(self)@ == old(self)@.scrolled_down(),
    {
        if self.offset < self.max_offset() {
            self.offset = self.offset + 1;
        }
    }

    /// Moves the window one record up, unless it is at the top.
    pub fn scroll_up(&mut self)
        requires
            old(self).wf(),
        ensures
            final(self).wf(),
            final(self)@ == old(self)@.scrolled_up(),
    {
        if self.offset > 0 {
            self.offset = self.offset - 1;
        }
    }

    /// The records on screen: at most a window of them from the offset,
    /// clipped to the records that exist.
    pub fn visible(&self) -> (r: &[Commit])
        requires
            self.wf(),
        ensures
            commit_views(r@) == self@.visible(),
            r@.len() <= self@.window_size,
    {
        let end: usize = if self.records.len() - self.offset >= self.window_size {
            self.offset + self.window_size
        } else {
            self.records.len()
        };
        let r = &self.records.as_slice()[self.offset..end];
        assert(commit_views(r@) =~= self@.visible());
        r
    }

    /// Applies one key: down and up scroll and ask for a redraw, `q` ends
    /// the loop, and anything else is ignored.
    pub fn handle_key(&mut self, key: Key) -> (r: Step)
        requires
            old(self).wf(),
        ensures
            final(self).wf(),
            key == Key::Down ==> r == Step::Redraw && final(self)@ == old(self)@.scrolled_down(),
            key == Key::Up ==> r == Step::Redraw && final(self)@ == old(self)@.scrolled_up(),
            key == Key::Char('q') ==> r == Step::Quit && final(self)@ == old(self)@,
            key != Key::Down && key != Key::Up && key != Key::Char('q') ==> r == Step::Wait
                && final(self)@ == old(self)@,
    {
        match key {
            Key::Down => {
                self.scroll_down();
                Step::Redraw
            },
            Key::Up => {
                self.scroll_up();
                Step::Redraw
            },
            Key::Char(c) => {
                if c == 'q' {
                    Step::Quit
                } else {
                    Step::Wait
                }
            },
            Key::Other => Step::Wait,
        }
    }
}

/// Begins a session on the log tool's output: the parse error, no records
/// (the loop is not entered), or a viewer at the top of the records.
pub fn open_session(raw: &str) -> (r: Result<Opening, ParseError>)
    ensures
        raw@.len() == 0 ==> r is Ok && r->Ok_0 is Empty,
        match r {
            Ok(Opening::Empty) => parsed(raw@, Ok(Seq::empty())),
            Ok(Opening::Browse(v)) => {
                &&& v.wf()
                &&& v@.records.len() > 0
                &&& parsed(raw@, Ok(v@.records))
                &&& v@.window_size == WINDOW_SIZE as nat
                &&& v@.offset == 0
            },
            Err(e) => parsed(raw@, Err(e)),
        },
{
    match parse_log(raw) {
        Ok(records) => {
            if records.len() == 0 {
                assert(commit_views(records@) =~= Seq::empty());
                Ok(Opening::Empty)
            } else {
                Ok(Opening::Browse(Viewport::new(records)))
            }
        },
        Err(e) => Err(e),
    }
}

} // verus!
