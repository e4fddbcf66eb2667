//! What holds of the editor whatever is typed.

use vstd::prelude::*;
use crate::history::HistoryView;
use crate::model::{Key, TerminalView};
use crate::position::{
    cell_forward, cell_left, cell_of, cell_right, lemma_forward_wraps, lemma_left_undoes_right,
    lemma_row_offset_bounds, row_offset, Cell, Screen,
};
use crate::surface::{
    clear_rows, cursor_after_all, lemma_clear_rows_ends_on_top, lemma_cursor_after_both,
    lemma_cursor_after_push, lemma_printing_steps_forward, Op,
};
use crate::text::{
    blank, bytes_of, lemma_bytes_round_trip, lemma_text_round_trip, printable, printable_bytes,
    text_of,
};

verus! {

/// An operation of the editor.
pub enum Operation {
    /// Open a line for input.
    OpenLine,
    /// Put text into the line at the caret.
    Insert(Seq<u8>),
    /// Delete the byte before the caret.
    Backspace,
    /// Delete everything before the caret.
    ClearToStart,
    /// Erase the line.
    ClearLine,
    /// Move the caret one step left.
    MoveLeft,
    /// Move the caret one step right.
    MoveRight,
    /// Put the caret at offset 0.
    MoveToStart,
    /// Put the caret at the end of the line.
    MoveToEnd,
    /// Step towards older entries of the history.
    PrevCommand,
    /// Step towards newer entries of the history.
    NextCommand,
    /// Submit the line.
    LineFeed,
    /// Fit the scrolling region to a screen that changed its size.
    OnResized,
    /// Handle a key.
    Input(Key),
}

impl TerminalView {
    /// The operation can be asked of this editor: text to insert is printable
    /// and leaves a line that fits.
    pub open spec fn admits(self, op: Operation) -> bool {
        match op {
            Operation::Insert(text) => printable_bytes(text) && self.fits(
                self.buffer.len() + text.len(),
            ),
            _ => true,
        }
    }

    /// What the operation makes of this editor.
    pub open spec fn apply(self, op: Operation) -> TerminalView {
        match op {
            Operation::OpenLine => self.open_line(),
            Operation::Insert(text) => self.insert(text),
            Operation::Backspace => self.backspace(),
            Operation::ClearToStart => self.clear_to_start(),
            Operation::ClearLine => self.clear_line(),
            Operation::MoveLeft => self.move_left(),
            Operation::MoveRight => self.move_right(),
            Operation::MoveToStart => self.move_to_start(),
            Operation::MoveToEnd => self.move_to_end(),
            Operation::PrevCommand => self.prev_command(),
            Operation::NextCommand => self.next_command(),
            Operation::LineFeed => self.line_feed(),
            Operation::OnResized => self,
            Operation::Input(key) => self.input(key),
        }
    }

    /// Each operation can be asked of the editor that the ones before it
    /// leave.
    pub open spec fn admits_all(self, ops: Seq<Operation>) -> bool
        decreases ops.len(),
    {
        ops.len() == 0 || (self.admits(ops[0]) && self.apply(ops[0]).admits_all(ops.drop_first()))
    }

    /// What the operations, one after the other, make of this editor.
    pub open spec fn apply_all(self, ops: Seq<Operation>) -> TerminalView
        decreases ops.len(),
    {
        if ops.len() == 0 {
            self
        } else {
            self.apply(ops[0]).apply_all(ops.drop_first())
        }
    }
}

/// Saving the line at the top of the history leaves a history whose entries
/// are printable and fit.
pub proof fn lemma_saved_is_wf(v: TerminalView)
    requires
        v.wf(),
    ensures
        v.with_history(v.saved()).wf(),
        v.with_history(v.history.add(text_of(v.buffer))).wf(),
{
    lemma_text_round_trip(v.buffer);
}

/// What the history surfaces can be loaded as the line.
pub proof fn lemma_load_is_wf(v: TerminalView, history: HistoryView, surfaced: Option<Seq<char>>)
    requires
        v.with_history(history).wf(),
        surfaced is Some ==> history.entries.contains(surfaced->0),
    ensures
        v.load(history, surfaced).wf(),
{
    if let Some(entry) = surfaced {
        lemma_bytes_round_trip(entry);
    }
}

/// Every operation leaves an editor as well-formed as it found it.
pub proof fn lemma_apply_keeps_wf(v: TerminalView, op: Operation)
    requires
        v.wf(),
        v.admits(op),
    ensures
        v.apply(op).wf(),
{
    match op {
        Operation::PrevCommand => {
            lemma_prev_command_wf(v);
        },
        Operation::NextCommand => {
            lemma_next_command_wf(v);
        },
        Operation::LineFeed => {
            lemma_saved_is_wf(v);
        },
        Operation::Input(key) => {
            lemma_input_keeps_wf(v, key);
        },
        _ => {},
    }
}

/// A step towards older entries leaves a well-formed editor.
pub proof fn lemma_prev_command_wf(v: TerminalView)
    requires
        v.wf(),
    ensures
        v.prev_command().wf(),
{
    lemma_saved_is_wf(v);
    let saved = v.saved();
    if saved.cursor > 0 {
        assert(saved.entries.contains(saved.entries[saved.cursor as int - 1]));
    }
    lemma_load_is_wf(v, saved.prev(), saved.prev_entry());
}

/// A step towards newer entries leaves a well-formed editor.
pub proof fn lemma_next_command_wf(v: TerminalView)
    requires
        v.wf(),
    ensures
        v.next_command().wf(),
{
    let h = v.history;
    if h.cursor + 1 < h.entries.len() {
        assert(h.entries.contains(h.entries[h.cursor as int + 1]));
    }
    lemma_load_is_wf(v, h.next(), h.next_entry());
}

/// Every key leaves an editor as well-formed as it found it.
pub proof fn lemma_input_keeps_wf(v: TerminalView, key: Key)
    requires
        v.wf(),
    ensures
        v.input(key).wf(),
{
    lemma_prev_command_wf(v);
    lemma_next_command_wf(v);
    lemma_saved_is_wf(v);
}

/// Whatever operations are asked of a well-formed editor, it stays
/// well-formed after each of them.
pub proof fn lemma_apply_all_keeps_wf(v: TerminalView, ops: Seq<Operation>, done: int)
    requires
        v.wf(),
        v.admits_all(ops),
        0 <= done <= ops.len(),
    ensures
        v.apply_all(ops.take(done)).wf(),
    decreases done,
{
    if done > 0 {
        lemma_apply_keeps_wf(v, ops[0]);
        assert(ops.take(done).drop_first() =~= ops.drop_first().take(done - 1));
        lemma_apply_all_keeps_wf(v.apply(ops[0]), ops.drop_first(), done - 1);
    }
}

/// Whatever operations are asked of the editor, the caret lies within the
/// line after each of them.
pub proof fn lemma_caret_stays_in_line(v: TerminalView, ops: Seq<Operation>, done: int)
    requires
        v.wf(),
        v.admits_all(ops),
        0 <= done <= ops.len(),
    ensures
        0 <= v.apply_all(ops.take(done)).offset <= v.apply_all(ops.take(done)).buffer.len(),
{
    lemma_apply_all_keeps_wf(v, ops, done);
}

/// A submitted line leaves the history at the top.
pub proof fn lemma_add_command_at_top(h: HistoryView, line: Seq<char>)
    ensures
        h.add(line).at_top(),
{
}

/// Submitting the line leaves the history at the top, unless a blank line is
/// submitted while browsing: that line is not added, and the cursor stays
/// where it was.
pub proof fn lemma_line_feed_at_top(v: TerminalView)
    requires
        v.wf(),
        v.history.at_top() || !blank(v.buffer),
    ensures
        v.line_feed().history.at_top(),
        v.line_feed().buffer.len() == 0,
        v.line_feed().offset == 0,
{
}

/// The first step back from the top saves the line as the newest entry and
/// surfaces that entry: the line stays as it is, the caret goes to its end,
/// and the history is no longer at the top.
pub proof fn lemma_first_step_back_keeps_the_line(v: TerminalView)
    requires
        v.wf(),
        v.history.at_top(),
    ensures
        v.prev_command().buffer == v.buffer,
        v.prev_command().offset == v.buffer.len(),
        v.prev_command().history.entries == v.history.entries.push(text_of(v.buffer)),
        v.prev_command().history.cursor == v.history.entries.len(),
        !v.prev_command().history.at_top(),
{
    lemma_text_round_trip(v.buffer);
}

/// While the history is browsed the line mirrors the entry under the browse
/// cursor, with the caret at its end. A step that surfaces nothing leaves an
/// empty line: back from the oldest entry, where the cursor stays, and
/// forward from the newest, where it returns to the top.
pub proof fn lemma_browsing_mirrors_the_history(v: TerminalView)
    requires
        v.wf(),
    ensures
        v.prev_command().offset == v.prev_command().buffer.len(),
        v.next_command().offset == v.next_command().buffer.len(),
        v.saved().cursor > 0 ==> v.prev_command().buffer == bytes_of(
            v.prev_command().history.entries[v.prev_command().history.cursor as int],
        ),
        v.saved().cursor == 0 ==> v.prev_command().buffer.len() == 0
            && v.prev_command().history.cursor == 0,
        v.history.cursor + 1 < v.history.entries.len() ==> v.next_command().buffer == bytes_of(
            v.next_command().history.entries[v.next_command().history.cursor as int],
        ),
        v.history.cursor + 1 >= v.history.entries.len() ==> v.next_command().buffer.len() == 0
            && v.next_command().history.at_top(),
{
}

/// Going to the start of the line twice is going there once: the second time
/// the caret is at offset 0 already and the cursor is sent to the cell where
/// it stands.
pub proof fn lemma_move_to_start_twice(v: TerminalView, screen: Screen, after: Screen)
    requires
        v.wf(),
        screen.wf(),
        after.wf(),
        after.width == screen.width,
        after.cursor@ == v.line_start(screen),
    ensures
        v.move_to_start().offset == 0,
        v.move_to_start().move_to_start() == v.move_to_start(),
        v.move_to_start().move_to_start_ops(after) == seq![Op::MoveTo(after.cursor@)],
{
    assert(row_offset(after.width as int, v.prompt.len() as int, 0) == 0);
}

/// Inserting a character and deleting it again leaves the editor as it was.
pub proof fn lemma_insert_then_backspace(v: TerminalView, c: u8)
    requires
        v.wf(),
        printable(c),
    ensures
        v.insert(seq![c]).backspace() == v,
{
    let typed = v.insert(seq![c]);
    assert(typed.buffer.remove(typed.offset - 1) =~= v.buffer);
}

/// Inserting a character and deleting it again leaves the cursor where it
/// was: `after` is the screen as the insertion left it.
pub proof fn lemma_insert_then_backspace_on_screen(
    v: TerminalView,
    c: u8,
    screen: Screen,
    after: Screen,
)
    requires
        v.wf(),
        printable(c),
        v.fits(v.buffer.len() + 1),
        screen.wf(),
        after.wf(),
        after.width == screen.width,
        after.cursor@ == cursor_after_all(
            screen.width as int,
            screen.cursor@,
            v.insert_ops(screen, seq![c]),
        ),
    ensures
        cursor_after_all(
            after.width as int,
            after.cursor@,
            v.insert(seq![c]).backspace_ops(after),
        ) == screen.cursor@,
{
    lemma_apply_keeps_wf(v, Operation::Insert(seq![c]));
    lemma_insert_moves_the_cursor(v, screen, seq![c]);
    lemma_backspace_moves_the_cursor(v.insert(seq![c]), after);
    lemma_left_undoes_right(screen.width as int, screen.cursor@);
}

impl TerminalView {
    /// The cursor stands on the cell that the arithmetic gives for the caret,
    /// in the line that it finds from the cursor.
    pub open spec fn agrees_with(self, width: int, cursor: Cell) -> bool {
        cursor == cell_of(
            width,
            self.prompt.len() as int,
            self.origin_row(width, cursor.y),
            self.offset,
        )
    }
}

/// Erasing the line leaves the cursor right after the fresh prompt, on the
/// row where the line started.
pub proof fn lemma_erase_ends_at_line_start(v: TerminalView, width: int, row: int, at: Cell)
    requires
        v.wf(),
        v.prompt.len() < width,
    ensures
        cursor_after_all(width, at, v.erase(width, row)) == (Cell {
            x: v.prompt.len() as int,
            y: v.origin_row(width, row),
        }),
{
    let top = v.origin_row(width, row);
    let start = Cell { x: 0, y: top };
    lemma_row_offset_bounds(width, v.prompt.len() as int, v.buffer.len() as int);
    lemma_clear_rows_ends_on_top(width, at, top, v.end_row(width, row));
    lemma_cursor_after_push(
        width,
        at,
        clear_rows(top, v.end_row(width, row)),
        Op::Print(v.prompt),
    );
    lemma_printing_steps_forward(width, start, v.prompt);
    lemma_forward_wraps(width, start, v.prompt.len());
    let cells = v.prompt.len() as int;
    assert(cells % width == cells && cells / width == 0) by (nonlinear_arith)
        requires
            0 <= cells < width,
    ;
}

/// After the line was erased the cursor stands at the start of the line,
/// which is where the emptied editor has its caret.
pub proof fn lemma_clear_line_ends_at_line_start(v: TerminalView, screen: Screen)
    requires
        v.wf(),
        screen.wf(),
        v.prompt.len() < screen.width,
    ensures
        cursor_after_all(screen.width as int, screen.cursor@, v.clear_line_ops(screen))
            == v.line_start(screen),
        v.clear_line().agrees_with(screen.width as int, v.line_start(screen)),
{
    lemma_erase_ends_at_line_start(v, screen.width as int, screen.cursor.y as int, screen.cursor@);
}

/// After an insertion the cursor stands as many steps to the right as the
/// text is long.
pub proof fn lemma_insert_moves_the_cursor(v: TerminalView, screen: Screen, text: Seq<u8>)
    requires
        v.wf(),
        screen.wf(),
        printable_bytes(text),
    ensures
        cursor_after_all(screen.width as int, screen.cursor@, v.insert_ops(screen, text))
            == cell_forward(screen.width as int, screen.cursor@, text.len()),
{
    let width = screen.width as int;
    let at = screen.cursor@;
    if v.offset == v.buffer.len() {
        lemma_cursor_after_push(width, at, Seq::empty(), Op::Print(text));
        assert(seq![Op::Print(text)] =~= Seq::<Op>::empty().push(Op::Print(text)));
        lemma_printing_steps_forward(width, at, text);
    } else {
        let drawn = v.erase(width, screen.cursor.y as int).push(Op::Print(v.insert(text).buffer));
        lemma_cursor_after_push(width, at, drawn, Op::MoveTo(cell_forward(width, at, text.len())));
    }
}

/// After a deletion the cursor stands one step to the left.
pub proof fn lemma_backspace_moves_the_cursor(v: TerminalView, screen: Screen)
    requires
        v.wf(),
        screen.wf(),
        v.offset > 0,
    ensures
        cursor_after_all(screen.width as int, screen.cursor@, v.backspace_ops(screen))
            == cell_left(screen.width as int, screen.cursor@),
{
    let width = screen.width as int;
    let at = screen.cursor@;
    let left = cell_left(width, at);
    if v.offset == v.buffer.len() {
        let moved = seq![Op::MoveTo(left)];
        assert(moved =~= Seq::<Op>::empty().push(Op::MoveTo(left)));
        assert(v.backspace_ops(screen) =~= moved.push(Op::DeleteChar));
        lemma_cursor_after_push(width, at, Seq::empty(), Op::MoveTo(left));
        lemma_cursor_after_push(width, at, moved, Op::DeleteChar);
    } else {
        let after = v.backspace();
        let drawn = after.erase(width, left.y).push(Op::Print(after.buffer)).push(Op::MoveTo(left));
        lemma_cursor_after_both(width, at, seq![Op::MoveTo(left)], drawn);
        lemma_cursor_after_push(
            width,
            cursor_after_all(width, at, seq![Op::MoveTo(left)]),
            after.erase(width, left.y).push(Op::Print(after.buffer)),
            Op::MoveTo(left),
        );
    }
}

/// After everything before the caret was deleted the cursor stands at the
/// start of the line, where the caret is.
pub proof fn lemma_clear_to_start_ends_at_line_start(v: TerminalView, screen: Screen)
    requires
        v.wf(),
        screen.wf(),
        v.prompt.len() <= screen.width,
    ensures
        cursor_after_all(screen.width as int, screen.cursor@, v.clear_to_start_ops(screen))
            == v.line_start(screen),
        v.clear_to_start().agrees_with(screen.width as int, v.line_start(screen)),
{
    let width = screen.width as int;
    let drawn = v.erase(width, screen.cursor.y as int).push(Op::Print(v.clear_to_start().buffer));
    lemma_cursor_after_push(width, screen.cursor@, drawn, Op::MoveTo(v.line_start(screen)));
}

/// A step of the caret takes the cursor along, and where the caret cannot
/// move the cursor stays.
pub proof fn lemma_steps_move_the_cursor(v: TerminalView, screen: Screen)
    requires
        v.wf(),
        screen.wf(),
    ensures
        cursor_after_all(screen.width as int, screen.cursor@, v.move_left_ops(screen)) == if v.offset
            > 0 {
            cell_left(screen.width as int, screen.cursor@)
        } else {
            screen.cursor@
        },
        cursor_after_all(screen.width as int, screen.cursor@, v.move_right_ops(screen))
            == if v.offset < v.buffer.len() {
            cell_right(screen.width as int, screen.cursor@)
        } else {
            screen.cursor@
        },
{
    let width = screen.width as int;
    let at = screen.cursor@;
    let left = Op::MoveTo(cell_left(width, at));
    let right = Op::MoveTo(cell_right(width, at));
    assert(seq![left] =~= Seq::<Op>::empty().push(left));
    assert(seq![right] =~= Seq::<Op>::empty().push(right));
    lemma_cursor_after_push(width, at, Seq::empty(), left);
    lemma_cursor_after_push(width, at, Seq::empty(), right);
}

/// After a jump to the start or to the end of the line the cursor stands on
/// the cell that the arithmetic gives for the caret.
pub proof fn lemma_jumps_agree_with_the_caret(v: TerminalView, screen: Screen)
    requires
        v.wf(),
        screen.wf(),
        v.prompt.len() <= screen.width,
    ensures
        cursor_after_all(screen.width as int, screen.cursor@, v.move_to_start_ops(screen))
            == v.line_start(screen),
        v.move_to_start().agrees_with(screen.width as int, v.line_start(screen)),
        cursor_after_all(screen.width as int, screen.cursor@, v.move_to_end_ops(screen))
            == v.line_end(screen),
        v.move_to_end().agrees_with(screen.width as int, v.line_end(screen)),
{
    let width = screen.width as int;
    let at = screen.cursor@;
    let start = Op::MoveTo(v.line_start(screen));
    let end = Op::MoveTo(v.line_end(screen));
    assert(seq![start] =~= Seq::<Op>::empty().push(start));
    assert(seq![end] =~= Seq::<Op>::empty().push(end));
    lemma_cursor_after_push(width, at, Seq::empty(), start);
    lemma_cursor_after_push(width, at, Seq::empty(), end);
}

/// After a step through the history the cursor stands behind the line that
/// was drawn after the prompt.
pub proof fn lemma_history_steps_end_behind_the_line(v: TerminalView, screen: Screen)
    requires
        v.wf(),
        screen.wf(),
        v.prompt.len() < screen.width,
    ensures
        cursor_after_all(screen.width as int, screen.cursor@, v.prev_command_ops(screen))
            == cell_forward(
            screen.width as int,
            v.line_start(screen),
            v.prev_command().buffer.len(),
        ),
        cursor_after_all(screen.width as int, screen.cursor@, v.next_command_ops(screen))
            == cell_forward(
            screen.width as int,
            v.line_start(screen),
            v.next_command().buffer.len(),
        ),
{
    lemma_load_ends_behind_the_line(v, screen, v.saved().prev_entry());
    lemma_load_ends_behind_the_line(v, screen, v.history.next_entry());
}

/// After the surfaced entry was drawn the cursor stands behind it.
proof fn lemma_load_ends_behind_the_line(
    v: TerminalView,
    screen: Screen,
    surfaced: Option<Seq<char>>,
)
    requires
        v.wf(),
        screen.wf(),
        v.prompt.len() < screen.width,
        surfaced is Some ==> printable_bytes(bytes_of(surfaced->0)),
    ensures
        cursor_after_all(screen.width as int, screen.cursor@, v.load_ops(screen, surfaced))
            == cell_forward(
            screen.width as int,
            v.line_start(screen),
            v.load(v.history, surfaced).buffer.len(),
        ),
{
    let width = screen.width as int;
    let at = screen.cursor@;
    lemma_erase_ends_at_line_start(v, width, screen.cursor.y as int, at);
    if let Some(entry) = surfaced {
        lemma_cursor_after_push(
            width,
            at,
            v.erase(width, screen.cursor.y as int),
            Op::Print(bytes_of(entry)),
        );
        lemma_printing_steps_forward(width, v.line_start(screen), bytes_of(entry));
    }
}

/// After a line was submitted the cursor stands at the start of the row
/// below its echo.
pub proof fn lemma_line_feed_ends_below_the_line(v: TerminalView, screen: Screen)
    requires
        v.wf(),
        screen.wf(),
        v.prompt.len() < screen.width,
    ensures
        cursor_after_all(screen.width as int, screen.cursor@, v.line_feed_ops(screen)) == (Cell {
            x: 0,
            y: cell_forward(screen.width as int, v.line_start(screen), v.buffer.len()).y + 1,
        }),
{
    let width = screen.width as int;
    let at = screen.cursor@;
    lemma_erase_ends_at_line_start(v, width, screen.cursor.y as int, at);
    lemma_cursor_after_push(
        width,
        at,
        v.erase(width, screen.cursor.y as int),
        Op::Print(v.buffer.push(0x0a)),
    );
    assert(v.buffer.push(0x0a).drop_last() =~= v.buffer);
    lemma_printing_steps_forward(width, v.line_start(screen), v.buffer);
}

} // verus!
