use hecto::editor::terminal::{Position, Size, TerminalCommand};
use hecto::editor::view::buffer::Buffer;
use hecto::editor::view::View;
use hecto::editor::{Editor, Event, Location};

fn sized_editor(width: usize, height: usize) -> Editor {
    let mut editor = Editor::default();
    editor.evaluate_event(Event::Resize { width, height });
    editor
}

fn press(editor: &mut Editor, ch: char) {
    editor.evaluate_event(Event::Key { ch, ctrl: true });
}

#[test]
fn load_splits_lines() {
    let buffer = Buffer::load("one\ntwo\nthree");
    assert!(!buffer.is_empty());
    assert_eq!(buffer.lines.len(), 3);
    assert_eq!(buffer.lines[0], "one");
    assert_eq!(buffer.lines[1], "two");
    assert_eq!(buffer.lines[2], "three");
}

#[test]
fn load_empty_text_gives_empty_buffer() {
    let buffer = Buffer::load("");
    assert!(buffer.is_empty());
    assert_eq!(buffer.lines.len(), 0);
}

#[test]
fn load_preserves_empty_lines_and_crlf() {
    let buffer = Buffer::load("a\r\nb\n\nc\n");
    assert_eq!(buffer.lines, vec!["a", "b", "", "c"]);
}

#[test]
fn load_single_empty_line_is_not_empty() {
    let buffer = Buffer::load("\n");
    assert!(!buffer.is_empty());
    assert_eq!(buffer.lines, vec![""]);
}

#[test]
fn load_keeps_lone_trailing_carriage_return() {
    let buffer = Buffer::load("hello\r");
    assert_eq!(buffer.lines, vec!["hello\r"]);
}

#[test]
fn view_load_replaces_buffer_and_marks_stale() {
    let mut view = View::default();
    view.resize(Size { width: 10, height: 4 });
    view.render();
    assert!(!view.needs_redraw);
    view.load(Some("x\ny"));
    assert!(view.needs_redraw);
    assert_eq!(view.buffer.lines, vec!["x", "y"]);
}

#[test]
fn view_load_failure_keeps_previous_buffer() {
    let mut view = View::default();
    view.resize(Size { width: 10, height: 4 });
    view.load(Some("kept\ntext"));
    view.render();
    view.load(None);
    assert_eq!(view.buffer.lines, vec!["kept", "text"]);
    assert!(!view.needs_redraw);
}

#[test]
fn resize_always_sets_needs_redraw() {
    let mut view = View::default();
    view.resize(Size { width: 7, height: 7 });
    view.render();
    assert!(!view.needs_redraw);
    view.resize(Size { width: 7, height: 7 });
    assert!(view.needs_redraw);
    assert_eq!(view.size, Size { width: 7, height: 7 });
}

#[test]
fn degenerate_render_emits_nothing_and_keeps_flag() {
    let mut view = View::default();
    view.resize(Size { width: 0, height: 10 });
    let commands = view.render();
    assert!(commands.is_empty());
    assert!(view.needs_redraw);

    view.resize(Size { width: 10, height: 0 });
    let commands = view.render();
    assert!(commands.is_empty());
    assert!(view.needs_redraw);
}

#[test]
fn render_is_idempotent() {
    let mut view = View::default();
    view.load(Some("alpha\nbeta"));
    view.resize(Size { width: 10, height: 3 });
    let first = view.render();
    assert_eq!(first.len(), 9);
    let second = view.render();
    assert!(second.is_empty());
}

fn printed_rows(commands: &[TerminalCommand]) -> Vec<String> {
    let mut rows = Vec::new();
    for chunk in commands.chunks(3) {
        assert_eq!(chunk.len(), 3, "frame commands come in triples");
        match (&chunk[0], &chunk[1], &chunk[2]) {
            (
                TerminalCommand::MoveCursorTo(Position { col: 0, row }),
                TerminalCommand::ClearLine,
                TerminalCommand::Print(text),
            ) => {
                assert_eq!(*row, rows.len(), "rows are drawn in order");
                rows.push(text.clone());
            }
            other => panic!("unexpected row commands: {other:?}"),
        }
    }
    rows
}

#[test]
fn long_line_is_truncated_without_wrapping() {
    let mut view = View::default();
    view.load(Some("abcdefgh"));
    view.resize(Size { width: 5, height: 3 });
    let rows = printed_rows(&view.render());
    assert_eq!(rows, vec!["abcde", "~", "~"]);
}

#[test]
fn line_exactly_viewport_width_is_kept_whole() {
    let mut view = View::default();
    view.load(Some("abcde"));
    view.resize(Size { width: 5, height: 2 });
    let rows = printed_rows(&view.render());
    assert_eq!(rows, vec!["abcde", "~"]);
}

#[test]
fn empty_buffer_shows_welcome_row_at_third_of_height() {
    let mut view = View::default();
    view.resize(Size { width: 80, height: 24 });
    let rows = printed_rows(&view.render());
    assert_eq!(rows.len(), 24);
    let expected = format!("~{}Welcome to Hecto v1.0.0", " ".repeat(29));
    assert_eq!(rows[8], expected);
    for (i, row) in rows.iter().enumerate() {
        if i != 8 {
            assert_eq!(row, "~");
        }
    }
}

#[test]
fn welcome_padding_matches_integer_halves() {
    assert_eq!(
        View::build_welcome_msg(80),
        format!("~{}Welcome to Hecto v1.0.0", " ".repeat(29))
    );
    assert_eq!(View::build_welcome_msg(10), "~Welcome to Hecto v1.0.0");
    assert_eq!(View::build_welcome_msg(0), "~Welcome to Hecto v1.0.0");
    assert_eq!(
        View::build_welcome_msg(81),
        format!("~{}Welcome to Hecto v1.0.0", " ".repeat(29))
    );
}

#[test]
fn non_empty_buffer_never_shows_welcome() {
    let mut view = View::default();
    view.load(Some("only"));
    view.resize(Size { width: 40, height: 9 });
    let rows = printed_rows(&view.render());
    assert_eq!(rows[0], "only");
    for row in rows.iter().skip(1) {
        assert_eq!(row, "~");
    }
}

#[test]
fn buffer_taller_than_viewport_draws_only_visible_rows() {
    let mut view = View::default();
    view.load(Some("a\nb\nc\nd\ne"));
    view.resize(Size { width: 10, height: 3 });
    let rows = printed_rows(&view.render());
    assert_eq!(rows, vec!["a", "b", "c"]);
}

#[test]
fn move_left_saturates_at_zero() {
    let mut editor = sized_editor(80, 24);
    for _ in 0..5 {
        press(&mut editor, 'j');
    }
    assert_eq!(editor.location, Location { x: 0, y: 5 });
    press(&mut editor, 'h');
    assert_eq!(editor.location, Location { x: 0, y: 5 });
}

#[test]
fn move_right_clamps_at_width() {
    let mut editor = sized_editor(80, 24);
    for _ in 0..5 {
        press(&mut editor, 'j');
    }
    for _ in 0..100 {
        press(&mut editor, 'l');
    }
    assert_eq!(editor.location, Location { x: 79, y: 5 });
    press(&mut editor, 'l');
    assert_eq!(editor.location, Location { x: 79, y: 5 });
}

#[test]
fn any_move_sequence_stays_in_bounds() {
    let mut editor = sized_editor(7, 3);
    let keys = ['j', 'j', 'l', 'l', 'l', 'l', 'k', 'h', 'j', 'l', 'l', 'l', 'l', 'j', 'j', 'k'];
    for ch in keys {
        press(&mut editor, ch);
        assert!(editor.location.x < 7);
        assert!(editor.location.y < 3);
    }
}

#[test]
fn unhandled_events_change_nothing() {
    let mut editor = sized_editor(10, 10);
    let before_location = editor.location;
    editor.evaluate_event(Event::Other);
    editor.evaluate_event(Event::Key { ch: 'q', ctrl: false });
    editor.evaluate_event(Event::Key { ch: 'z', ctrl: true });
    assert_eq!(editor.location, before_location);
    assert!(!editor.should_quit);
    assert_eq!(editor.view.size, Size { width: 10, height: 10 });
}

#[test]
fn quit_key_renders_one_goodbye_frame() {
    let mut editor = sized_editor(80, 24);
    editor.refresh_screen();
    press(&mut editor, 'q');
    assert!(editor.should_quit);
    let commands = editor.refresh_screen();
    assert_eq!(
        commands,
        vec![
            TerminalCommand::HideCursor,
            TerminalCommand::MoveCursorTo(Position { col: 0, row: 0 }),
            TerminalCommand::ClearScreen,
            TerminalCommand::Print(String::from("Goodbye.\r\n")),
            TerminalCommand::ShowCursor,
            TerminalCommand::Flush,
        ]
    );
    assert!(editor.should_quit, "the loop exits without reading further input");
}

#[test]
fn refresh_screen_repositions_cursor_after_drawing() {
    let mut editor = sized_editor(12, 4);
    press(&mut editor, 'j');
    press(&mut editor, 'l');
    let commands = editor.refresh_screen();
    assert_eq!(commands.len(), 2 + 3 * 4 + 1 + 2);
    assert_eq!(commands[0], TerminalCommand::HideCursor);
    assert_eq!(
        commands[1],
        TerminalCommand::MoveCursorTo(Position { col: 0, row: 0 })
    );
    assert_eq!(
        commands[commands.len() - 3],
        TerminalCommand::MoveCursorTo(Position { col: 1, row: 1 })
    );
    assert_eq!(commands[commands.len() - 2], TerminalCommand::ShowCursor);
    assert_eq!(commands[commands.len() - 1], TerminalCommand::Flush);
}

#[test]
fn refresh_screen_skips_frame_when_screen_is_current() {
    let mut editor = sized_editor(12, 4);
    editor.refresh_screen();
    let commands = editor.refresh_screen();
    assert_eq!(
        commands,
        vec![
            TerminalCommand::HideCursor,
            TerminalCommand::MoveCursorTo(Position { col: 0, row: 0 }),
            TerminalCommand::MoveCursorTo(Position { col: 0, row: 0 }),
            TerminalCommand::ShowCursor,
            TerminalCommand::Flush,
        ]
    );
}
