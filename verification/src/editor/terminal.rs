//! Data model of the terminal surface: sizes, positions, and the commands
//! the core hands to a terminal sink. The sink itself (the code that talks
//! to a real terminal) lives outside the verified core.

use vstd::prelude::*;

verus! {

/// Terminal dimensions in character cells.
#[derive(Default, Copy, Clone, Debug, PartialEq, Eq, Structural)]
pub struct Size {
    pub width: usize,
    pub height: usize,
}

/// A cell position on the terminal: `col` is the column, `row` the row.
#[derive(Copy, Clone, Debug, PartialEq, Eq, Structural)]
pub struct Position {
    pub col: usize,
    pub row: usize,
}

impl Default for Position {
    fn default() -> (r: Self)
        ensures
            r == (Position { col: 0, row: 0 }),
    {
        Position { col: 0, row: 0 }
    }
}

/// One instruction to the terminal sink. The core emits sequences of these;
/// a driver performs each as the corresponding terminal operation.
#[derive(Clone, Debug, PartialEq, Eq)]
pub enum TerminalCommand {
    /// Hide the terminal cursor.
    HideCursor,
    /// Show the terminal cursor.
    ShowCursor,
    /// Move the terminal cursor to the given cell.
    MoveCursorTo(Position),
    /// Clear the whole screen.
    ClearScreen,
    /// Clear the row the cursor is on.
    ClearLine,
    /// Print the text at the cursor, with no trailing newline.
    Print(String),
    /// Flush everything queued so far to the terminal.
    Flush,
}

/// The mathematical view of a `TerminalCommand`: the same constructors with
/// printed text abstracted to its character sequence.
pub ghost enum SinkCall {
    HideCursor,
    ShowCursor,
    MoveCursorTo(Position),
    ClearScreen,
    ClearLine,
    Print(Seq<char>),
    Flush,
}

impl View for TerminalCommand {
    type V = SinkCall;

    open spec fn view(&self) -> SinkCall {
        match self {
            TerminalCommand::HideCursor => SinkCall::HideCursor,
            TerminalCommand::ShowCursor => SinkCall::ShowCursor,
            TerminalCommand::MoveCursorTo(p) => SinkCall::MoveCursorTo(*p),
            TerminalCommand::ClearScreen => SinkCall::ClearScreen,
            TerminalCommand::ClearLine => SinkCall::ClearLine,
            TerminalCommand::Print(s) => SinkCall::Print(s@),
            TerminalCommand::Flush => SinkCall::Flush,
        }
    }
}

/// The sink calls denoted by a sequence of commands.
pub open spec fn calls_of(cmds: Seq<TerminalCommand>) -> Seq<SinkCall> {
    cmds.map_values(|c: TerminalCommand| c@)
}

/// `calls_of` distributes over concatenation.
pub proof fn lemma_calls_of_concat(a: Seq<TerminalCommand>, b: Seq<TerminalCommand>)
    ensures
        calls_of(a + b) == calls_of(a) + calls_of(b),
{
    assert(calls_of(a + b) =~= calls_of(a) + calls_of(b));
}

} // verus!
