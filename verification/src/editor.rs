//! Event dispatcher: owns the quit flag, the cursor location and the view,
//! and translates input events into cursor moves, resizes or termination.

pub mod terminal;
pub mod view;

use vstd::prelude::*;
use vstd::view::View as _;

use crate::editor::terminal::{calls_of, lemma_calls_of_concat, Position, SinkCall, Size, TerminalCommand};
use crate::editor::view::buffer::lines_view;
use crate::editor::view::{render_next, render_output, View};

verus! {

/// An input event as the dispatcher sees it: a key press of a character
/// (with whether it came with the control modifier alone), a terminal
/// resize, or anything else, which is ignored.
#[derive(Copy, Clone, Debug, PartialEq, Eq, Structural)]
pub enum Event {
    Key { ch: char, ctrl: bool },
    Resize { width: usize, height: usize },
    Other,
}

/// Cursor location in viewport coordinates: `x` is the column, `y` the row.
#[derive(Copy, Clone, Debug, PartialEq, Eq, Structural)]
pub struct Location {
    pub x: usize,
    pub y: usize,
}

impl Default for Location {
    fn default() -> (r: Self)
        ensures
            r == (Location { x: 0, y: 0 }),
    {
        Location { x: 0, y: 0 }
    }
}

/// Whether a location lies inside a viewport of the given size.
pub open spec fn in_bounds(loc: Location, size: Size) -> bool {
    loc.x < size.width && loc.y < size.height
}

/// One step of the cursor controller: move one axis by one, saturating at
/// zero and clamping to `size - 1` (with a zero-sized dimension clamping to
/// zero). Any character other than the four movement keys is a no-op.
pub open spec fn spec_move_point(loc: Location, key_code: char, size: Size) -> Location {
    if key_code == 'h' {
        Location { x: dec_saturating(loc.x), y: loc.y }
    } else if key_code == 'j' {
        Location { x: loc.x, y: inc_clamped(loc.y, size.height) }
    } else if key_code == 'k' {
        Location { x: loc.x, y: dec_saturating(loc.y) }
    } else if key_code == 'l' {
        Location { x: inc_clamped(loc.x, size.width), y: loc.y }
    } else {
        loc
    }
}

/// `v - 1`, saturating at zero.
pub open spec fn dec_saturating(v: usize) -> usize {
    if v == 0 {
        0
    } else {
        (v - 1) as usize
    }
}

/// `min(v + 1, dim - 1)`, where both the increment and the subtraction
/// saturate; a zero-sized dimension yields zero.
pub open spec fn inc_clamped(v: usize, dim: usize) -> usize {
    let bound = dec_saturating(dim);
    if v >= bound {
        bound
    } else {
        (v + 1) as usize
    }
}

/// The cursor after a whole sequence of movement keys, applied in order
/// against one fixed viewport size.
pub open spec fn apply_moves(loc: Location, keys: Seq<char>, size: Size) -> Location
    decreases keys.len(),
{
    if keys.len() == 0 {
        loc
    } else {
        apply_moves(spec_move_point(loc, keys[0], size), keys.drop_first(), size)
    }
}

/// Law: one movement step never leaves a viewport with positive dimensions.
pub proof fn lemma_move_point_in_bounds(loc: Location, key_code: char, size: Size)
    requires
        size.width > 0,
        size.height > 0,
        in_bounds(loc, size),
    ensures
        in_bounds(spec_move_point(loc, key_code, size), size),
{
}

/// Law: from any position inside a viewport with positive dimensions, every
/// sequence of movement keys ends inside it: `0 <= x < width` and
/// `0 <= y < height` hold of the resulting cursor.
pub proof fn lemma_moves_stay_in_bounds(loc: Location, keys: Seq<char>, size: Size)
    requires
        size.width > 0,
        size.height > 0,
        in_bounds(loc, size),
    ensures
        in_bounds(apply_moves(loc, keys, size), size),
    decreases keys.len(),
{
    if keys.len() > 0 {
        lemma_move_point_in_bounds(loc, keys[0], size);
        lemma_moves_stay_in_bounds(spec_move_point(loc, keys[0], size), keys.drop_first(), size);
    }
}

/// The whole editor: quit flag, cursor location and view. The dispatcher
/// owns all three and is the only writer of the location.
pub struct Editor {
    pub should_quit: bool,
    pub location: Location,
    pub view: View,
}

impl Default for Editor {
    fn default() -> (r: Self)
        ensures
            r.should_quit == false,
            r.location == (Location { x: 0, y: 0 }),
            lines_view(r.view.buffer).len() == 0,
            r.view.needs_redraw == true,
            r.view.size == (Size { width: 0, height: 0 }),
    {
        Editor { should_quit: false, location: Location { x: 0, y: 0 }, view: View::default() }
    }
}

/// The editor after one event is dispatched: control-q sets the quit flag,
/// a control movement key moves the cursor within the cached viewport size,
/// a resize updates the view, and everything else changes nothing.
pub open spec fn evaluate_next(e: Editor, event: Event) -> Editor {
    match event {
        Event::Key { ch, ctrl } => {
            if ctrl && ch == 'q' {
                Editor { should_quit: true, location: e.location, view: e.view }
            } else if ctrl && (ch == 'h' || ch == 'j' || ch == 'k' || ch == 'l') {
                Editor {
                    should_quit: e.should_quit,
                    location: spec_move_point(e.location, ch, e.view.size),
                    view: e.view,
                }
            } else {
                e
            }
        },
        Event::Resize { width, height } => Editor {
            should_quit: e.should_quit,
            location: e.location,
            view: View { buffer: e.view.buffer, needs_redraw: true, size: Size { width, height } },
        },
        Event::Other => e,
    }
}

/// The goodbye text printed on the final frame.
pub open spec fn goodbye_text() -> Seq<char> {
    "Goodbye.\r\n"@
}

/// Every sink call of one screen refresh: the cursor is hidden and parked
/// at the origin, then either the goodbye frame (when quitting) or the
/// view's render output followed by a cursor move to the editor's location,
/// and finally the cursor is shown again and the queue flushed.
pub open spec fn refresh_output(e: Editor) -> Seq<SinkCall> {
    let prefix = seq![
        SinkCall::HideCursor,
        SinkCall::MoveCursorTo(Position { col: 0, row: 0 }),
    ];
    let suffix = seq![SinkCall::ShowCursor, SinkCall::Flush];
    if e.should_quit {
        prefix + seq![SinkCall::ClearScreen, SinkCall::Print(goodbye_text())] + suffix
    } else {
        prefix + render_output(e.view) + seq![
            SinkCall::MoveCursorTo(Position { col: e.location.x, row: e.location.y }),
        ] + suffix
    }
}

/// The editor after one refresh: only the view's dirty flag can change.
pub open spec fn refresh_next(e: Editor) -> Editor {
    if e.should_quit {
        e
    } else {
        Editor { should_quit: e.should_quit, location: e.location, view: render_next(e.view) }
    }
}

/// Law: the quit key puts the editor in its terminal state. The refresh
/// after it emits exactly the goodbye frame, and the editor then no longer
/// changes, so the driving loop stops without reading further input.
pub proof fn lemma_quit_final_frame(e: Editor)
    ensures
        ({
            let quit = evaluate_next(e, Event::Key { ch: 'q', ctrl: true });
            &&& quit.should_quit
            &&& refresh_output(quit) == seq![
                SinkCall::HideCursor,
                SinkCall::MoveCursorTo(Position { col: 0, row: 0 }),
                SinkCall::ClearScreen,
                SinkCall::Print(goodbye_text()),
                SinkCall::ShowCursor,
                SinkCall::Flush,
            ]
            &&& refresh_next(quit) == quit
        }),
{
    let quit = evaluate_next(e, Event::Key { ch: 'q', ctrl: true });
    assert(refresh_output(quit) =~= seq![
        SinkCall::HideCursor,
        SinkCall::MoveCursorTo(Position { col: 0, row: 0 }),
        SinkCall::ClearScreen,
        SinkCall::Print(goodbye_text()),
        SinkCall::ShowCursor,
        SinkCall::Flush,
    ]);
}

impl Editor {
    /// Moves the cursor one step for the given movement key, clamped to the
    /// cached viewport size; other keys leave it in place.
    pub fn move_point(&mut self, key_code: char)
        ensures
            *final(self) == (Editor {
                should_quit: old(self).should_quit,
                location: spec_move_point(old(self).location, key_code, old(self).view.size),
                view: old(self).view,
            }),
    {
        let mut x = self.location.x;
        let mut y = self.location.y;
        let Size { height, width } = self.view.size;
        if key_code == 'h' {
            x = if x == 0 {
                0
            } else {
                x - 1
            };
        } else if key_code == 'j' {
            let bound = if height == 0 {
                0
            } else {
                height - 1
            };
            y = if y >= bound {
                bound
            } else {
                y + 1
            };
        } else if key_code == 'k' {
            y = if y == 0 {
                0
            } else {
                y - 1
            };
        } else if key_code == 'l' {
            let bound = if width == 0 {
                0
            } else {
                width - 1
            };
            x = if x >= bound {
                bound
            } else {
                x + 1
            };
        }
        self.location = Location { x, y };
    }

    /// Dispatches one input event, as `evaluate_next` describes.
    pub fn evaluate_event(&mut self, event: Event)
        ensures
            *final(self) == evaluate_next(*old(self), event),
    {
        match event {
            Event::Key { ch, ctrl } => {
                if ctrl && ch == 'q' {
                    self.should_quit = true;
                } else if ctrl && (ch == 'h' || ch == 'j' || ch == 'k' || ch == 'l') {
                    self.move_point(ch);
                }
            },
            Event::Resize { width, height } => {
                self.view.resize(Size { width, height });
            },
            Event::Other => {},
        }
    }

    /// Emits the commands of one screen refresh, as `refresh_output`
    /// describes, and clears the view's dirty flag when a frame was drawn.
    pub fn refresh_screen(&mut self) -> (r: Vec<TerminalCommand>)
        ensures
            calls_of(r@) == refresh_output(*old(self)),
            *final(self) == refresh_next(*old(self)),
    {
        let mut out: Vec<TerminalCommand> = Vec::new();
        out.push(TerminalCommand::HideCursor);
        out.push(TerminalCommand::MoveCursorTo(Position { col: 0, row: 0 }));
        if self.should_quit {
            out.push(TerminalCommand::ClearScreen);
            let goodbye: String = "Goodbye.\r\n".to_owned();
            out.push(TerminalCommand::Print(goodbye));
        } else {
            let ghost head = out@;
            let mut frame: Vec<TerminalCommand> = self.view.render();
            proof {
                lemma_calls_of_concat(head, frame@);
            }
            out.append(&mut frame);
            out.push(TerminalCommand::MoveCursorTo(Position {
                col: self.location.x,
                row: self.location.y,
            }));
            proof {
                assert(calls_of(out@) =~= calls_of(head) + render_output(old(self).view) + seq![
                    SinkCall::MoveCursorTo(Position { col: old(self).location.x, row: old(self).location.y }),
                ]);
            }
        }
        out.push(TerminalCommand::ShowCursor);
        out.push(TerminalCommand::Flush);
        proof {
            assert(calls_of(out@) =~= refresh_output(*old(self)));
        }
        out
    }
}

} // verus!
