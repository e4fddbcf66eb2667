//! The editor as a mathematical value.
//!
//! `TerminalView` is what an editor holds, and its functions say what each
//! operation makes of it and which commands the operation sends to the
//! terminal. The operations that need to know where the line lies take the
//! width of the screen and the row of its cursor.

use vstd::prelude::*;
use crate::history::HistoryView;
use crate::position::{
    cell_forward, cell_left, cell_of, cell_right, origin_row_of, row_offset, Cell, Screen,
    MAX_COORDINATE,
};
use crate::surface::{clear_rows, Op};
use crate::text::{blank, bytes_of, printable_bytes, printable_text, text_of};

verus! {

/// A key as the terminal decodes it.
#[derive(Clone, Copy, Debug, PartialEq, Eq, Structural)]
pub enum Key {
    /// A character, control characters included.
    Character(char),
    /// The backspace key.
    Backspace,
    /// The screen changed its size.
    Resize,
    /// Arrow up.
    Up,
    /// Arrow down.
    Down,
    /// Arrow left.
    Left,
    /// Arrow right.
    Right,
    /// Any other key.
    Other,
}

/// An editor as a value: its prompt, the line being edited, the offset of the
/// caret into the line, and the history.
pub struct TerminalView {
    pub prompt: Seq<u8>,
    pub buffer: Seq<u8>,
    pub offset: int,
    pub history: HistoryView,
}

impl TerminalView {
    /// A line of `len` bytes after the prompt can be addressed in terminal
    /// coordinates.
    pub open spec fn fits(self, len: nat) -> bool {
        self.prompt.len() + len <= MAX_COORDINATE
    }

    /// The caret lies within the line; prompt, line and history hold printable
    /// characters only; the line and every entry of the history fit.
    pub open spec fn wf(self) -> bool {
        &&& 0 <= self.offset <= self.buffer.len()
        &&& printable_bytes(self.prompt)
        &&& printable_bytes(self.buffer)
        &&& self.fits(self.buffer.len())
        &&& self.history.wf()
        &&& forall|i: int|
            0 <= i < self.history.entries.len() ==> printable_text(#[trigger] self.history.entries[i])
                && self.fits(self.history.entries[i].len())
    }

    /// The editor before anything was typed.
    pub open spec fn fresh(prompt: Seq<u8>) -> TerminalView {
        TerminalView { prompt, buffer: Seq::empty(), offset: 0, history: HistoryView::empty() }
    }

    /// The row where the line starts, when the caret stands on `row`.
    pub open spec fn origin_row(self, width: int, row: int) -> int {
        origin_row_of(width, self.prompt.len() as int, row, self.offset)
    }

    /// The row where the line ends, when the caret stands on `row`.
    pub open spec fn end_row(self, width: int, row: int) -> int {
        self.origin_row(width, row) + row_offset(
            width,
            self.prompt.len() as int,
            self.buffer.len() as int,
        )
    }

    /// The cell of offset 0, right after the prompt.
    pub open spec fn line_start(self, screen: Screen) -> Cell {
        Cell {
            x: self.prompt.len() as int,
            y: self.origin_row(screen.width as int, screen.cursor.y as int),
        }
    }

    /// The cell of the end of the line.
    pub open spec fn line_end(self, screen: Screen) -> Cell {
        cell_of(
            screen.width as int,
            self.prompt.len() as int,
            self.origin_row(screen.width as int, screen.cursor.y as int),
            self.buffer.len() as int,
        )
    }

    /// The commands that delete every row of the line, lowest first, and
    /// print the prompt again.
    pub open spec fn erase(self, width: int, row: int) -> Seq<Op> {
        clear_rows(self.origin_row(width, row), self.end_row(width, row)).push(
            Op::Print(self.prompt),
        )
    }

    /// The editor with another line and caret.
    pub open spec fn with_line(self, buffer: Seq<u8>, offset: int) -> TerminalView {
        TerminalView { buffer, offset, ..self }
    }

    /// The editor with another history.
    pub open spec fn with_history(self, history: HistoryView) -> TerminalView {
        TerminalView { history, ..self }
    }

    /// The editor showing what the history surfaced, the caret at its end; an
    /// empty line where it surfaced nothing.
    pub open spec fn load(self, history: HistoryView, surfaced: Option<Seq<char>>) -> TerminalView {
        let buffer = match surfaced {
            Some(entry) => bytes_of(entry),
            None => Seq::empty(),
        };
        TerminalView { buffer, offset: buffer.len() as int, history, ..self }
    }

    /// The commands that show what the history surfaced.
    pub open spec fn load_ops(self, screen: Screen, surfaced: Option<Seq<char>>) -> Seq<Op> {
        let erase = self.erase(screen.width as int, screen.cursor.y as int);
        match surfaced {
            Some(entry) => erase.push(Op::Print(bytes_of(entry))),
            None => erase,
        }
    }

    /// The start of a line: the caret goes to offset 0.
    pub open spec fn open_line(self) -> TerminalView {
        self.with_line(self.buffer, 0)
    }

    /// `text` goes in at the caret, which moves past it.
    pub open spec fn insert(self, text: Seq<u8>) -> TerminalView {
        self.with_line(
            self.buffer.subrange(0, self.offset) + text + self.buffer.subrange(
                self.offset,
                self.buffer.len() as int,
            ),
            self.offset + text.len(),
        )
    }

    /// At the end of the line the text is printed where the cursor stands.
    /// Elsewhere the line is erased and drawn again and the cursor is put as
    /// many steps to the right as the text is long.
    pub open spec fn insert_ops(self, screen: Screen, text: Seq<u8>) -> Seq<Op> {
        if self.offset == self.buffer.len() {
            seq![Op::Print(text)]
        } else {
            self.erase(screen.width as int, screen.cursor.y as int).push(
                Op::Print(self.insert(text).buffer),
            ).push(Op::MoveTo(cell_forward(screen.width as int, screen.cursor@, text.len())))
        }
    }

    /// The byte before the caret goes, and the caret with it; at offset 0
    /// nothing changes.
    pub open spec fn backspace(self) -> TerminalView {
        if self.offset == 0 {
            self
        } else {
            self.with_line(self.buffer.remove(self.offset - 1), self.offset - 1)
        }
    }

    /// At the end of the line the cursor steps left and the cell under it is
    /// deleted. Elsewhere the cursor steps left, the shortened line is erased
    /// and drawn again, and the cursor returns to where the step led.
    pub open spec fn backspace_ops(self, screen: Screen) -> Seq<Op> {
        let left = cell_left(screen.width as int, screen.cursor@);
        if self.offset == 0 {
            Seq::empty()
        } else if self.offset == self.buffer.len() {
            seq![Op::MoveTo(left), Op::DeleteChar]
        } else {
            seq![Op::MoveTo(left)] + self.backspace().erase(screen.width as int, left.y).push(
                Op::Print(self.backspace().buffer),
            ).push(Op::MoveTo(left))
        }
    }

    /// Everything before the caret goes; the caret stands at offset 0.
    pub open spec fn clear_to_start(self) -> TerminalView {
        self.with_line(self.buffer.subrange(self.offset, self.buffer.len() as int), 0)
    }

    /// The line is erased, what is left of it is drawn, and the cursor goes
    /// to the start of the line.
    pub open spec fn clear_to_start_ops(self, screen: Screen) -> Seq<Op> {
        self.erase(screen.width as int, screen.cursor.y as int).push(
            Op::Print(self.clear_to_start().buffer),
        ).push(Op::MoveTo(self.line_start(screen)))
    }

    /// The line is empty, the caret at offset 0.
    pub open spec fn clear_line(self) -> TerminalView {
        self.with_line(Seq::empty(), 0)
    }

    /// The line is erased.
    pub open spec fn clear_line_ops(self, screen: Screen) -> Seq<Op> {
        self.erase(screen.width as int, screen.cursor.y as int)
    }

    /// The caret goes one step left, unless it stands at offset 0.
    pub open spec fn move_left(self) -> TerminalView {
        if self.offset > 0 {
            self.with_line(self.buffer, self.offset - 1)
        } else {
            self
        }
    }

    /// The cursor follows the caret.
    pub open spec fn move_left_ops(self, screen: Screen) -> Seq<Op> {
        if self.offset > 0 {
            seq![Op::MoveTo(cell_left(screen.width as int, screen.cursor@))]
        } else {
            Seq::empty()
        }
    }

    /// The caret goes one step right, unless it stands at the end.
    pub open spec fn move_right(self) -> TerminalView {
        if self.offset < self.buffer.len() {
            self.with_line(self.buffer, self.offset + 1)
        } else {
            self
        }
    }

    /// The cursor follows the caret.
    pub open spec fn move_right_ops(self, screen: Screen) -> Seq<Op> {
        if self.offset < self.buffer.len() {
            seq![Op::MoveTo(cell_right(screen.width as int, screen.cursor@))]
        } else {
            Seq::empty()
        }
    }

    /// The caret goes to offset 0.
    pub open spec fn move_to_start(self) -> TerminalView {
        self.with_line(self.buffer, 0)
    }

    /// The cursor goes to the start of the line.
    pub open spec fn move_to_start_ops(self, screen: Screen) -> Seq<Op> {
        seq![Op::MoveTo(self.line_start(screen))]
    }

    /// The caret goes to the end of the line.
    pub open spec fn move_to_end(self) -> TerminalView {
        self.with_line(self.buffer, self.buffer.len() as int)
    }

    /// The cursor goes to the end of the line.
    pub open spec fn move_to_end_ops(self, screen: Screen) -> Seq<Op> {
        seq![Op::MoveTo(self.line_end(screen))]
    }

    /// The history that a step towards older entries starts from: at the top
    /// the line being edited is saved as the newest entry first.
    pub open spec fn saved(self) -> HistoryView {
        if self.history.at_top() {
            self.history.add(text_of(self.buffer))
        } else {
            self.history
        }
    }

    /// A step towards older entries. The first step from the top surfaces the
    /// line that was just saved.
    pub open spec fn prev_command(self) -> TerminalView {
        self.load(self.saved().prev(), self.saved().prev_entry())
    }

    /// The line is erased and the surfaced entry drawn.
    pub open spec fn prev_command_ops(self, screen: Screen) -> Seq<Op> {
        self.load_ops(screen, self.saved().prev_entry())
    }

    /// A step towards newer entries.
    pub open spec fn next_command(self) -> TerminalView {
        self.load(self.history.next(), self.history.next_entry())
    }

    /// The line is erased and the surfaced entry drawn.
    pub open spec fn next_command_ops(self, screen: Screen) -> Seq<Op> {
        self.load_ops(screen, self.history.next_entry())
    }

    /// The line is submitted: it joins the history unless it is blank, and
    /// the editor is left with an empty line.
    pub open spec fn line_feed(self) -> TerminalView {
        TerminalView {
            buffer: Seq::empty(),
            offset: 0,
            history: if blank(self.buffer) {
                self.history
            } else {
                self.history.add(text_of(self.buffer))
            },
            ..self
        }
    }

    /// The line is erased and printed once more after the prompt, followed by
    /// a line break.
    pub open spec fn line_feed_ops(self, screen: Screen) -> Seq<Op> {
        self.erase(screen.width as int, screen.cursor.y as int).push(
            Op::Print(self.buffer.push(0x0a)),
        )
    }

    /// What a key makes of the editor.
    pub open spec fn input(self, key: Key) -> TerminalView {
        match key {
            Key::Character(c) => if c == '\n' {
                self.line_feed()
            } else if c == '\u{7f}' {
                self.backspace()
            } else if c == '\u{15}' {
                self.clear_to_start()
            } else if c == '\u{c}' {
                self.clear_line()
            } else if c == '\u{1}' {
                self.move_to_start()
            } else if c == '\u{5}' {
                self.move_to_end()
            } else if ' ' <= c <= '~' && self.fits(self.buffer.len() + 1) {
                self.insert(seq![c as u8])
            } else {
                self
            },
            Key::Backspace => self.backspace(),
            Key::Up => self.prev_command(),
            Key::Down => self.next_command(),
            Key::Left => self.move_left(),
            Key::Right => self.move_right(),
            Key::Resize | Key::Other => self,
        }
    }

    /// The commands that a key sends to the terminal.
    pub open spec fn input_ops(self, key: Key, screen: Screen) -> Seq<Op> {
        match key {
            Key::Character(c) => if c == '\n' {
                self.line_feed_ops(screen)
            } else if c == '\u{7f}' {
                self.backspace_ops(screen)
            } else if c == '\u{15}' {
                self.clear_to_start_ops(screen)
            } else if c == '\u{c}' {
                self.clear_line_ops(screen)
            } else if c == '\u{1}' {
                self.move_to_start_ops(screen)
            } else if c == '\u{5}' {
                self.move_to_end_ops(screen)
            } else if ' ' <= c <= '~' && self.fits(self.buffer.len() + 1) {
                self.insert_ops(screen, seq![c as u8])
            } else {
                Seq::empty()
            },
            Key::Backspace => self.backspace_ops(screen),
            Key::Resize => seq![Op::FitScrollRegion],
            Key::Up => self.prev_command_ops(screen),
            Key::Down => self.next_command_ops(screen),
            Key::Left => self.move_left_ops(screen),
            Key::Right => self.move_right_ops(screen),
            Key::Other => Seq::empty(),
        }
    }

    /// The line that a key submits, if it submits one.
    pub open spec fn input_line(self, key: Key) -> Option<Seq<char>> {
        if key == Key::Character('\n') {
            Some(text_of(self.buffer))
        } else {
            None
        }
    }
}

} // verus!
