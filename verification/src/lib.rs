//! Core of a terminal text viewer: an in-memory line buffer, a viewport
//! renderer with dirty-flag tracking, a clamped cursor, and an event
//! dispatcher. All terminal I/O is expressed as command values that a thin
//! driver executes; the logic that decides what to draw is verified here.

pub mod editor;
