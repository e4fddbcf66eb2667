//! The editor: a line, a caret and a history behind a prompt.

use vstd::prelude::*;
use crate::history::CommandHistory;
use crate::model::{Key, TerminalView};
use crate::position::{
    origin_row, position_of, rows_below_origin, Position, Screen, MAX_COORDINATE,
};
use crate::laws::{lemma_next_command_wf, lemma_prev_command_wf, lemma_saved_is_wf};
use crate::surface::{emit, emit_clear_rows, Command, Op};
use crate::text::{
    append_bytes, bytes_of, is_blank, lemma_bytes_round_trip, printable_bytes, printable_text,
    text_of, to_bytes, to_text,
};

verus! {

/// The answer to a key: the commands for the terminal and, where the key
/// submitted the line, that line.
pub struct Step {
    pub commands: Vec<Command>,
    pub line: Option<String>,
}

/// A line editor behind a prompt. It owns the line being edited, the caret
/// and the history, and answers every operation with the commands that draw
/// the outcome.
pub struct Terminal {
    prompt: Vec<u8>,
    history: CommandHistory,
    buf: Vec<u8>,
    pos: usize,
}

impl View for Terminal {
    type V = TerminalView;

    closed spec fn view(&self) -> TerminalView {
        TerminalView {
            prompt: self.prompt@,
            buffer: self.buf@,
            offset: self.pos as int,
            history: self.history@,
        }
    }
}

/// The bytes of what the history surfaced, after appending the command that
/// prints them; no bytes and no command where it surfaced nothing.
fn show(commands: &mut Vec<Command>, surfaced: Option<&String>) -> (line: Vec<u8>)
    requires
        surfaced.is_some() ==> printable_text(surfaced.unwrap()@),
    ensures
        line@ == match surfaced {
            Some(entry) => bytes_of(entry@),
            None => Seq::empty(),
        },
        final(commands).deep_view() == match surfaced {
            Some(entry) => old(commands).deep_view().push(Op::Print(bytes_of(entry@))),
            None => old(commands).deep_view(),
        },
{
    let mut line: Vec<u8> = Vec::new();
    match surfaced {
        Some(entry) => {
            let bytes = to_bytes(entry.as_str()).unwrap();
            append_bytes(&mut line, bytes.as_slice(), 0, bytes.len());
            assert(line@ =~= bytes@);
            emit(commands, Command::Print(bytes));
        },
        None => {},
    }
    line
}

impl Terminal {
    /// The editor is one that the operations below can have produced.
    pub open spec fn wf(&self) -> bool {
        self@.wf()
    }

    /// An editor with an empty line and an empty history, for a prompt that
    /// is printable and fits on a terminal; for no other.
    pub fn new(prompt: &str) -> (made: Option<Terminal>)
        ensures
            made.is_some() == (printable_text(prompt@) && prompt@.len() <= MAX_COORDINATE),
            made.is_some() ==> made.unwrap().wf() && made.unwrap()@ == TerminalView::fresh(
                bytes_of(prompt@),
            ),
    {
        match to_bytes(prompt) {
            Some(bytes) => {
                if bytes.len() <= MAX_COORDINATE as usize {
                    proof {
                        lemma_bytes_round_trip(prompt@);
                    }
                    Some(
                        Terminal {
                            prompt: bytes,
                            history: CommandHistory::default(),
                            buf: Vec::new(),
                            pos: 0,
                        },
                    )
                } else {
                    None
                }
            },
            None => None,
        }
    }

    /// The prompt.
    pub fn prompt(&self) -> (bytes: &Vec<u8>)
        ensures
            bytes@ == self@.prompt,
    {
        &self.prompt
    }

    /// The line being edited.
    pub fn buffer(&self) -> (bytes: &Vec<u8>)
        ensures
            bytes@ == self@.buffer,
    {
        &self.buf
    }

    /// The offset of the caret into the line.
    pub fn cursor_offset(&self) -> (offset: usize)
        ensures
            offset == self@.offset,
    {
        self.pos
    }

    /// Whether the line has room for `len` more bytes.
    pub fn has_room(&self, len: usize) -> (room: bool)
        requires
            self.wf(),
        ensures
            room == self@.fits(self@.buffer.len() + len as nat),
    {
        len <= MAX_COORDINATE as usize - self.prompt.len() - self.buf.len()
    }

    /// The history.
    pub fn history(&self) -> (history: &CommandHistory)
        ensures
            history@ == self@.history,
    {
        &self.history
    }

    /// The row where the line starts, when the caret stands on `row`.
    fn origin(&self, width: i64, row: i64) -> (origin: i64)
        requires
            self.wf(),
            0 < width <= MAX_COORDINATE,
            -MAX_COORDINATE <= row <= MAX_COORDINATE,
        ensures
            origin == self@.origin_row(width as int, row as int),
            row - MAX_COORDINATE <= origin <= row,
    {
        origin_row(width, self.prompt.len() as i64, row, self.pos as i64)
    }

    /// Appends the commands that delete every row of the line and print the
    /// prompt again.
    fn erase(&self, out: &mut Vec<Command>, width: i64, row: i64)
        requires
            self.wf(),
            0 < width <= MAX_COORDINATE,
            -MAX_COORDINATE <= row <= MAX_COORDINATE,
        ensures
            final(out).deep_view() == old(out).deep_view() + self@.erase(width as int, row as int),
    {
        let top: i64 = self.origin(width, row);
        let bottom: i64 = top + rows_below_origin(
            width,
            self.prompt.len() as i64,
            self.buf.len() as i64,
        );
        emit_clear_rows(out, top, bottom);
        let prompt = self.prompt.clone();
        assert(prompt@ =~= self.prompt@);
        emit(out, Command::Print(prompt));
        assert(out.deep_view() =~= old(out).deep_view() + self@.erase(width as int, row as int));
    }

    /// The cell of offset 0, right after the prompt.
    pub fn line_start_position(&self, screen: Screen) -> (at: Position)
        requires
            self.wf(),
            screen.wf(),
        ensures
            at@ == self@.line_start(screen),
    {
        Position { x: self.prompt.len() as i64, y: self.origin(screen.width, screen.cursor.y) }
    }

    /// The cell of the end of the line.
    pub fn line_end_position(&self, screen: Screen) -> (at: Position)
        requires
            self.wf(),
            screen.wf(),
        ensures
            at@ == self@.line_end(screen),
    {
        position_of(
            screen.width,
            self.prompt.len() as i64,
            self.origin(screen.width, screen.cursor.y),
            self.buf.len() as i64,
        )
    }

    /// The command that prints the prompt.
    pub fn print_prompt(&self) -> (command: Command)
        ensures
            command@ == Op::Print(self@.prompt),
    {
        let prompt = self.prompt.clone();
        assert(prompt@ =~= self.prompt@);
        Command::Print(prompt)
    }

    /// Erases the line on the screen and in the editor.
    pub fn clear_line(&mut self, screen: Screen) -> (commands: Vec<Command>)
        requires
            old(self).wf(),
            screen.wf(),
        ensures
            final(self).wf(),
            final(self)@ == old(self)@.clear_line(),
            commands.deep_view() == old(self)@.clear_line_ops(screen),
    {
        let mut commands: Vec<Command> = Vec::new();
        assert(commands.deep_view() =~= Seq::<Op>::empty());
        self.erase(&mut commands, screen.width, screen.cursor.y);
        self.buf.clear();
        self.pos = 0;
        assert(commands.deep_view() =~= old(self)@.clear_line_ops(screen));
        commands
    }

    /// Moves the caret one step left; at offset 0 nothing happens.
    pub fn move_left(&mut self, screen: Screen) -> (commands: Vec<Command>)
        requires
            old(self).wf(),
            screen.wf(),
        ensures
            final(self).wf(),
            final(self)@ == old(self)@.move_left(),
            commands.deep_view() == old(self)@.move_left_ops(screen),
    {
        let mut commands: Vec<Command> = Vec::new();
        assert(commands.deep_view() =~= Seq::<Op>::empty());
        if self.pos > 0 {
            emit(&mut commands, Command::MoveTo(screen.left()));
            self.pos -= 1;
            assert(commands.deep_view() =~= old(self)@.move_left_ops(screen));
        }
        commands
    }

    /// Moves the caret one step right; at the end of the line nothing
    /// happens.
    pub fn move_right(&mut self, screen: Screen) -> (commands: Vec<Command>)
        requires
            old(self).wf(),
            screen.wf(),
        ensures
            final(self).wf(),
            final(self)@ == old(self)@.move_right(),
            commands.deep_view() == old(self)@.move_right_ops(screen),
    {
        let mut commands: Vec<Command> = Vec::new();
        assert(commands.deep_view() =~= Seq::<Op>::empty());
        if self.pos < self.buf.len() {
            emit(&mut commands, Command::MoveTo(screen.right()));
            self.pos += 1;
            assert(commands.deep_view() =~= old(self)@.move_right_ops(screen));
        }
        commands
    }

    /// Puts the caret at offset 0.
    pub fn move_to_start(&mut self, screen: Screen) -> (commands: Vec<Command>)
        requires
            old(self).wf(),
            screen.wf(),
        ensures
            final(self).wf(),
            final(self)@ == old(self)@.move_to_start(),
            commands.deep_view() == old(self)@.move_to_start_ops(screen),
    {
        let mut commands: Vec<Command> = Vec::new();
        assert(commands.deep_view() =~= Seq::<Op>::empty());
        emit(&mut commands, Command::MoveTo(self.line_start_position(screen)));
        self.pos = 0;
        assert(commands.deep_view() =~= old(self)@.move_to_start_ops(screen));
        commands
    }

    /// Puts the caret at the end of the line.
    pub fn move_to_end(&mut self, screen: Screen) -> (commands: Vec<Command>)
        requires
            old(self).wf(),
            screen.wf(),
        ensures
            final(self).wf(),
            final(self)@ == old(self)@.move_to_end(),
            commands.deep_view() == old(self)@.move_to_end_ops(screen),
    {
        let mut commands: Vec<Command> = Vec::new();
        assert(commands.deep_view() =~= Seq::<Op>::empty());
        emit(&mut commands, Command::MoveTo(self.line_end_position(screen)));
        self.pos = self.buf.len();
        assert(commands.deep_view() =~= old(self)@.move_to_end_ops(screen));
        commands
    }

    /// Puts `text` into the line at the caret.
    pub fn insert(&mut self, text: &[u8], screen: Screen) -> (commands: Vec<Command>)
        requires
            old(self).wf(),
            screen.wf(),
            printable_bytes(text@),
            old(self)@.fits(old(self)@.buffer.len() + text@.len()),
        ensures
            final(self).wf(),
            final(self)@ == old(self)@.insert(text@),
            commands.deep_view() == old(self)@.insert_ops(screen, text@),
    {
        let mut commands: Vec<Command> = Vec::new();
        assert(commands.deep_view() =~= Seq::<Op>::empty());
        let mut line: Vec<u8> = Vec::new();
        append_bytes(&mut line, self.buf.as_slice(), 0, self.pos);
        append_bytes(&mut line, text, 0, text.len());
        append_bytes(&mut line, self.buf.as_slice(), self.pos, self.buf.len());
        assert(line@ =~= old(self)@.insert(text@).buffer);
        if self.pos == self.buf.len() {
            let mut typed: Vec<u8> = Vec::new();
            append_bytes(&mut typed, text, 0, text.len());
            assert(typed@ =~= text@);
            emit(&mut commands, Command::Print(typed));
        } else {
            let target = screen.forward(text.len() as i64);
            self.erase(&mut commands, screen.width, screen.cursor.y);
            let drawn = line.clone();
            assert(drawn@ =~= line@);
            emit(&mut commands, Command::Print(drawn));
            emit(&mut commands, Command::MoveTo(target));
        }
        self.buf = line;
        self.pos += text.len();
        assert(commands.deep_view() =~= old(self)@.insert_ops(screen, text@));
        commands
    }

    /// Deletes the byte before the caret; at offset 0 nothing happens.
    pub fn backspace(&mut self, screen: Screen) -> (commands: Vec<Command>)
        requires
            old(self).wf(),
            screen.wf(),
        ensures
            final(self).wf(),
            final(self)@ == old(self)@.backspace(),
            commands.deep_view() == old(self)@.backspace_ops(screen),
    {
        let mut commands: Vec<Command> = Vec::new();
        assert(commands.deep_view() =~= Seq::<Op>::empty());
        if self.pos == 0 {
        } else if self.pos == self.buf.len() {
            emit(&mut commands, Command::MoveTo(screen.left()));
            emit(&mut commands, Command::DeleteChar);
            self.buf.pop();
            self.pos -= 1;
            assert(self.buf@ =~= old(self)@.backspace().buffer);
            assert(commands.deep_view() =~= old(self)@.backspace_ops(screen));
        } else {
            let left = screen.left();
            emit(&mut commands, Command::MoveTo(left));
            self.pos -= 1;
            self.buf.remove(self.pos);
            self.erase(&mut commands, screen.width, left.y);
            let drawn = self.buf.clone();
            assert(drawn@ =~= self.buf@);
            emit(&mut commands, Command::Print(drawn));
            emit(&mut commands, Command::MoveTo(left));
            assert(commands.deep_view() =~= old(self)@.backspace_ops(screen));
        }
        commands
    }

    /// Deletes everything before the caret.
    pub fn clear_to_start(&mut self, screen: Screen) -> (commands: Vec<Command>)
        requires
            old(self).wf(),
            screen.wf(),
        ensures
            final(self).wf(),
            final(self)@ == old(self)@.clear_to_start(),
            commands.deep_view() == old(self)@.clear_to_start_ops(screen),
    {
        let mut commands: Vec<Command> = Vec::new();
        assert(commands.deep_view() =~= Seq::<Op>::empty());
        let origin = self.line_start_position(screen);
        self.erase(&mut commands, screen.width, screen.cursor.y);
        let mut rest: Vec<u8> = Vec::new();
        append_bytes(&mut rest, self.buf.as_slice(), self.pos, self.buf.len());
        assert(rest@ =~= old(self)@.clear_to_start().buffer);
        let drawn = rest.clone();
        assert(drawn@ =~= rest@);
        emit(&mut commands, Command::Print(drawn));
        emit(&mut commands, Command::MoveTo(origin));
        self.buf = rest;
        self.pos = 0;
        assert(commands.deep_view() =~= old(self)@.clear_to_start_ops(screen));
        commands
    }

    /// Steps towards older entries of the history and shows the entry
    /// reached. At the top the line being edited is first saved as the newest
    /// entry, and the step surfaces that entry.
    pub fn prev_command(&mut self, screen: Screen) -> (commands: Vec<Command>)
        requires
            old(self).wf(),
            screen.wf(),
        ensures
            final(self).wf(),
            final(self)@ == old(self)@.prev_command(),
            commands.deep_view() == old(self)@.prev_command_ops(screen),
    {
        let mut commands: Vec<Command> = Vec::new();
        assert(commands.deep_view() =~= Seq::<Op>::empty());
        self.erase(&mut commands, screen.width, screen.cursor.y);
        if self.history.at_top() {
            let line = to_text(&self.buf);
            self.history.add_command(line);
        }
        proof {
            lemma_saved_is_wf(old(self)@);
            lemma_prev_command_wf(old(self)@);
            let saved = old(self)@.saved();
            if saved.cursor > 0 {
                assert(saved.entries.contains(saved.entries[saved.cursor as int - 1]));
            }
        }
        let line = show(&mut commands, self.history.prev_command());
        self.pos = line.len();
        self.buf = line;
        assert(commands.deep_view() =~= old(self)@.prev_command_ops(screen));
        commands
    }

    /// Steps towards newer entries of the history and shows the entry
    /// reached; past the newest entry the line is left empty.
    pub fn next_command(&mut self, screen: Screen) -> (commands: Vec<Command>)
        requires
            old(self).wf(),
            screen.wf(),
        ensures
            final(self).wf(),
            final(self)@ == old(self)@.next_command(),
            commands.deep_view() == old(self)@.next_command_ops(screen),
    {
        let mut commands: Vec<Command> = Vec::new();
        assert(commands.deep_view() =~= Seq::<Op>::empty());
        self.erase(&mut commands, screen.width, screen.cursor.y);
        proof {
            lemma_next_command_wf(old(self)@);
            let h = old(self)@.history;
            if h.cursor + 1 < h.entries.len() {
                assert(h.entries.contains(h.entries[h.cursor as int + 1]));
            }
        }
        let line = show(&mut commands, self.history.next_command());
        self.pos = line.len();
        self.buf = line;
        assert(commands.deep_view() =~= old(self)@.next_command_ops(screen));
        commands
    }

    /// Submits the line: hands it out, echoes it after the prompt with a line
    /// break, adds it to the history unless it is blank, and leaves an empty
    /// line.
    pub fn line_feed(&mut self, screen: Screen) -> (submitted: (String, Vec<Command>))
        requires
            old(self).wf(),
            screen.wf(),
        ensures
            final(self).wf(),
            final(self)@ == old(self)@.line_feed(),
            submitted.0@ == text_of(old(self)@.buffer),
            submitted.1.deep_view() == old(self)@.line_feed_ops(screen),
    {
        let line = to_text(&self.buf);
        let mut commands: Vec<Command> = Vec::new();
        assert(commands.deep_view() =~= Seq::<Op>::empty());
        self.erase(&mut commands, screen.width, screen.cursor.y);
        let mut echoed: Vec<u8> = Vec::new();
        append_bytes(&mut echoed, self.buf.as_slice(), 0, self.buf.len());
        echoed.push(0x0a);
        assert(echoed@ =~= old(self)@.buffer.push(0x0a));
        emit(&mut commands, Command::Print(echoed));
        if !is_blank(self.buf.as_slice()) {
            self.history.add_command(line.clone());
        }
        self.buf.clear();
        self.pos = 0;
        proof {
            lemma_saved_is_wf(old(self)@);
        }
        assert(commands.deep_view() =~= old(self)@.line_feed_ops(screen));
        (line, commands)
    }

    /// The screen changed its size: the scrolling region is fitted to it, and
    /// the editor stays as it is.
    pub fn on_resized(&self) -> (commands: Vec<Command>)
        ensures
            commands.deep_view() == seq![Op::FitScrollRegion],
    {
        let mut commands: Vec<Command> = Vec::new();
        emit(&mut commands, Command::FitScrollRegion);
        assert(commands.deep_view() =~= seq![Op::FitScrollRegion]);
        commands
    }

    /// Opens a line for input: prints the prompt and puts the caret at
    /// offset 0.
    pub fn open_line(&mut self) -> (commands: Vec<Command>)
        requires
            old(self).wf(),
        ensures
            final(self).wf(),
            final(self)@ == old(self)@.open_line(),
            commands.deep_view() == seq![Op::Print(old(self)@.prompt)],
    {
        let mut commands: Vec<Command> = Vec::new();
        emit(&mut commands, self.print_prompt());
        self.pos = 0;
        assert(commands.deep_view() =~= seq![Op::Print(old(self)@.prompt)]);
        commands
    }

    /// Handles one key: edits the line, browses the history or submits the
    /// line, as the key asks. Keys that ask for nothing change nothing, and
    /// so does a printable character for which the line has no room.
    pub fn input(&mut self, key: Key, screen: Screen) -> (step: Step)
        requires
            old(self).wf(),
            screen.wf(),
        ensures
            final(self).wf(),
            final(self)@ == old(self)@.input(key),
            step.commands.deep_view() == old(self)@.input_ops(key, screen),
            step.line.is_some() == old(self)@.input_line(key).is_some(),
            step.line.is_some() ==> step.line.unwrap()@ == old(self)@.input_line(key).unwrap(),
    {
        match key {
            Key::Character(c) => {
                if c == '\n' {
                    let (line, commands) = self.line_feed(screen);
                    Step { commands, line: Some(line) }
                } else if c == '\u{7f}' {
                    Step { commands: self.backspace(screen), line: None }
                } else if c == '\u{15}' {
                    Step { commands: self.clear_to_start(screen), line: None }
                } else if c == '\u{c}' {
                    Step { commands: self.clear_line(screen), line: None }
                } else if c == '\u{1}' {
                    Step { commands: self.move_to_start(screen), line: None }
                } else if c == '\u{5}' {
                    Step { commands: self.move_to_end(screen), line: None }
                } else if ' ' <= c && c <= '~' && self.has_room(1) {
                    let mut typed: Vec<u8> = Vec::new();
                    typed.push(c as u8);
                    assert(typed@ =~= seq![c as u8]);
                    Step { commands: self.insert(typed.as_slice(), screen), line: None }
                } else {
                    Step { commands: Vec::new(), line: None }
                }
            },
            Key::Backspace => Step { commands: self.backspace(screen), line: None },
            Key::Resize => Step { commands: self.on_resized(), line: None },
            Key::Up => Step { commands: self.prev_command(screen), line: None },
            Key::Down => Step { commands: self.next_command(screen), line: None },
            Key::Left => Step { commands: self.move_left(screen), line: None },
            Key::Right => Step { commands: self.move_right(screen), line: None },
            Key::Other => Step { commands: Vec::new(), line: None },
        }
    }
}

} // verus!
