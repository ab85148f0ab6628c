//! Viewport renderer: maps buffer lines onto terminal rows, truncating long
//! lines, filling rows past the text with a placeholder, and centering a
//! welcome banner on an empty buffer. A dirty flag suppresses redundant
//! frames: a render emits sink commands only when something changed.

pub mod buffer;

use vstd::prelude::*;
use vstd::view::View as _;

use crate::editor::terminal::{calls_of, Position, SinkCall, Size, TerminalCommand};
use buffer::{lines_view, split_lines, Buffer};

verus! {

/// The viewport and what fills it: the loaded buffer, the cached terminal
/// size, and whether the screen content is stale.
pub struct View {
    pub buffer: Buffer,
    pub needs_redraw: bool,
    pub size: Size,
}

impl Default for View {
    fn default() -> (r: Self)
        ensures
            lines_view(r.buffer).len() == 0,
            r.needs_redraw == true,
            r.size == (Size { width: 0, height: 0 }),
    {
        View { buffer: Buffer::default(), needs_redraw: true, size: Size { width: 0, height: 0 } }
    }
}

/// The welcome banner text.
pub open spec fn welcome_text() -> Seq<char> {
    "Welcome to Hecto v1.0.0"@
}

/// Number of padding spaces that roughly centers the banner: half the width
/// minus half the banner length, floored at zero (integer division on both).
pub open spec fn welcome_padding(width: usize) -> int {
    let half = width as int / 2;
    let msg_half = welcome_text().len() as int / 2;
    if half > msg_half {
        half - msg_half
    } else {
        0
    }
}

/// The full welcome row: a tilde, the padding, then the banner. It is not
/// truncated to the width, matching the renderer's observable behavior.
pub open spec fn welcome_line(width: usize) -> Seq<char> {
    seq!['~'] + Seq::new(welcome_padding(width) as nat, |i: int| ' ') + welcome_text()
}

/// A line cut to at most `width` characters; excess is dropped, not wrapped.
pub open spec fn truncated(line: Seq<char>, width: usize) -> Seq<char> {
    if line.len() >= width as nat {
        line.subrange(0, width as int)
    } else {
        line
    }
}

/// What row `r` of a frame shows: the buffer line at `r` truncated to the
/// width; else, on an empty buffer at one third of the height, the welcome
/// row; else a single tilde placeholder.
pub open spec fn row_text(lines: Seq<Seq<char>>, width: usize, height: usize, r: usize) -> Seq<char> {
    if (r as int) < lines.len() {
        truncated(lines[r as int], width)
    } else if r == height / 3 && lines.len() == 0 {
        welcome_line(width)
    } else {
        seq!['~']
    }
}

/// The three sink calls that draw one row: position, clear, print.
pub open spec fn row_calls(at: usize, text: Seq<char>) -> Seq<SinkCall> {
    seq![
        SinkCall::MoveCursorTo(Position { col: 0, row: at }),
        SinkCall::ClearLine,
        SinkCall::Print(text),
    ]
}

/// The sink calls of the first `upto` rows of a frame, in row order.
pub open spec fn frame_calls(lines: Seq<Seq<char>>, width: usize, height: usize, upto: int) -> Seq<SinkCall>
    decreases upto,
{
    if upto <= 0 {
        Seq::empty()
    } else {
        frame_calls(lines, width, height, upto - 1) + row_calls(
            (upto - 1) as usize,
            row_text(lines, width, height, (upto - 1) as usize),
        )
    }
}

/// Everything a render emits: nothing when the screen is current or a
/// dimension is zero, else one row of calls per terminal row.
pub open spec fn render_output(v: View) -> Seq<SinkCall> {
    if !v.needs_redraw || v.size.width == 0 || v.size.height == 0 {
        Seq::empty()
    } else {
        frame_calls(lines_view(v.buffer), v.size.width, v.size.height, v.size.height as int)
    }
}

/// The view after a render: unchanged when nothing was emitted (in
/// particular, a degenerate size leaves the dirty flag set), else the same
/// view with the dirty flag cleared.
pub open spec fn render_next(v: View) -> View {
    if !v.needs_redraw || v.size.width == 0 || v.size.height == 0 {
        v
    } else {
        View { buffer: v.buffer, needs_redraw: false, size: v.size }
    }
}

/// A frame of `upto` rows consists of exactly `3 * upto` sink calls.
pub proof fn lemma_frame_calls_len(lines: Seq<Seq<char>>, width: usize, height: usize, upto: int)
    requires
        upto >= 0,
    ensures
        frame_calls(lines, width, height, upto).len() == 3 * upto,
    decreases upto,
{
    if upto > 0 {
        lemma_frame_calls_len(lines, width, height, upto - 1);
    }
}

/// Law: when either dimension is zero, a render emits no sink call at all
/// and leaves the view — in particular its dirty flag — untouched.
pub proof fn lemma_degenerate_render_no_calls(v: View)
    requires
        v.size.width == 0 || v.size.height == 0,
    ensures
        render_output(v) == Seq::<SinkCall>::empty(),
        render_next(v) == v,
{
}

/// Law: rendering is idempotent. A second render with no state change in
/// between emits no sink call, while the first emits one call triple per
/// row whenever the screen was stale and both dimensions positive.
pub proof fn lemma_render_idempotent(v: View)
    ensures
        render_output(render_next(v)).len() == 0,
        v.needs_redraw && v.size.width > 0 && v.size.height > 0 ==> render_output(v).len() == 3
            * v.size.height,
{
    if v.needs_redraw && v.size.width > 0 && v.size.height > 0 {
        lemma_frame_calls_len(lines_view(v.buffer), v.size.width, v.size.height, v.size.height as int);
    }
}

/// Law: a buffer line at least as long as the viewport is wide shows as
/// exactly its first `width` characters.
pub proof fn lemma_truncation(lines: Seq<Seq<char>>, width: usize, height: usize, r: usize)
    requires
        (r as int) < lines.len(),
        lines[r as int].len() >= width as nat,
    ensures
        row_text(lines, width, height, r) == lines[r as int].subrange(0, width as int),
        row_text(lines, width, height, r).len() == width as nat,
{
}

/// Law: what a row shows depends only on the line at that row (and on the
/// buffer's length), never on neighbouring lines — dropped characters of a
/// long line cannot wrap into the next row.
pub proof fn lemma_row_text_local(
    lines1: Seq<Seq<char>>,
    lines2: Seq<Seq<char>>,
    width: usize,
    height: usize,
    r: usize,
)
    requires
        lines1.len() == lines2.len(),
        (r as int) < lines1.len() ==> lines1[r as int] == lines2[r as int],
    ensures
        row_text(lines1, width, height, r) == row_text(lines2, width, height, r),
{
}

impl View {
    /// Caches the new dimensions and always marks the screen stale, even
    /// when the new size equals the old one.
    pub fn resize(&mut self, to: Size)
        ensures
            *final(self) == (View { buffer: old(self).buffer, needs_redraw: true, size: to }),
    {
        self.size = to;
        self.needs_redraw = true;
    }

    /// Replaces the buffer with freshly loaded text and marks the screen
    /// stale; a failed load (`None`) leaves the view untouched.
    pub fn load(&mut self, contents: Option<&str>)
        ensures
            match contents {
                Some(c) => {
                    &&& lines_view(final(self).buffer) == split_lines(c@)
                    &&& final(self).needs_redraw == true
                    &&& final(self).size == old(self).size
                },
                None => *final(self) == *old(self),
            },
    {
        if let Some(c) = contents {
            self.buffer = Buffer::load(c);
            self.needs_redraw = true;
        }
    }

    /// Appends the three commands that draw row `at` with the given text.
    pub fn render_line(out: &mut Vec<TerminalCommand>, at: usize, line_text: String)
        ensures
            calls_of(final(out)@) == calls_of(old(out)@) + row_calls(at, line_text@),
    {
        let ghost before = out@;
        out.push(TerminalCommand::MoveCursorTo(Position { col: 0, row: at }));
        out.push(TerminalCommand::ClearLine);
        out.push(TerminalCommand::Print(line_text));
        proof {
            assert(calls_of(out@) =~= calls_of(before) + row_calls(at, line_text@));
        }
    }

    /// Builds the welcome row for the given width.
    pub fn build_welcome_msg(width: usize) -> (s: String)
        ensures
            s@ == welcome_line(width),
    {
        let welcome_msg = "Welcome to Hecto v1.0.0";
        proof {
            reveal_strlit("Welcome to Hecto v1.0.0");
            reveal_strlit("~");
            reveal_strlit(" ");
        }
        let len: usize = welcome_msg.unicode_len();
        let half: usize = width / 2;
        let target: usize = if half > len / 2 {
            half - len / 2
        } else {
            0
        };
        assert(target == welcome_padding(width));
        let mut s: String = "~".to_owned();
        let mut i: usize = 0;
        while i < target
            invariant
                i <= target,
                s@ =~= seq!['~'] + Seq::new(i as nat, |k: int| ' '),
            decreases target - i,
        {
            s.append(" ");
            i += 1;
            proof {
                reveal_strlit(" ");
                assert(s@ =~= seq!['~'] + Seq::new(i as nat, |k: int| ' '));
            }
        }
        s.append(welcome_msg);
        proof {
            assert(s@ =~= welcome_line(width));
        }
        s
    }

    /// Emits the commands for one full frame when the screen is stale and
    /// both dimensions are positive, clearing the dirty flag; otherwise
    /// emits nothing and changes nothing.
    pub fn render(&mut self) -> (r: Vec<TerminalCommand>)
        ensures
            calls_of(r@) == render_output(*old(self)),
            *final(self) == render_next(*old(self)),
    {
        let mut out: Vec<TerminalCommand> = Vec::new();
        proof {
            assert(calls_of(out@) =~= Seq::<SinkCall>::empty());
        }
        if !self.needs_redraw {
            return out;
        }
        let height = self.size.height;
        let width = self.size.width;
        if height == 0 || width == 0 {
            return out;
        }
        let ghost lv = lines_view(self.buffer);
        let mut current_row: usize = 0;
        while current_row < height
            invariant
                current_row <= height,
                width > 0,
                height > 0,
                self.size == (Size { width, height }),
                self.needs_redraw,
                lv == lines_view(self.buffer),
                *self == *old(self),
                calls_of(out@) == frame_calls(lv, width, height, current_row as int),
            decreases height - current_row,
        {
            let ghost text: Seq<char> = row_text(lv, width, height, current_row);
            if current_row < self.buffer.lines.len() {
                let line: &String = &self.buffer.lines[current_row];
                let ls: &str = line.as_str();
                let truncated_line: String = if ls.unicode_len() >= width {
                    ls.substring_char(0, width).to_owned()
                } else {
                    line.clone()
                };
                assert(truncated_line@ == text);
                Self::render_line(&mut out, current_row, truncated_line);
            } else if current_row == height / 3 && self.buffer.is_empty() {
                let w: String = Self::build_welcome_msg(width);
                assert(w@ == text);
                Self::render_line(&mut out, current_row, w);
            } else {
                let tilde: String = "~".to_owned();
                proof {
                    reveal_strlit("~");
                    assert(tilde@ =~= seq!['~']);
                }
                assert(tilde@ == text);
                Self::render_line(&mut out, current_row, tilde);
            }
            current_row += 1;
        }
        self.needs_redraw = false;
        out
    }
}

} // verus!
