//! What the editor asks of the terminal.
//!
//! The editor never touches the terminal. Each of its operations hands back
//! the commands that bring the screen in line with the new state, for the
//! caller to carry out in order.

use vstd::prelude::*;
use vstd::string::{StrSliceExecFns, StringSliceAdditionalSpecFns};
use crate::position::{cell_forward, cell_right, Cell, Position, MAX_COORDINATE};
use crate::text::printable_bytes;

verus! {

/// A command as a mathematical value.
pub enum Op {
    /// Put the cursor on a cell.
    MoveTo(Cell),
    /// Write bytes at the cursor, which moves on past them and wraps at the
    /// right margin.
    Print(Seq<u8>),
    /// Delete the character under the cursor; the rest of its row closes up.
    DeleteChar,
    /// Delete the row of the cursor; the rows below close up.
    DeleteLine,
    /// Let the scrolling region span every row of the screen.
    FitScrollRegion,
}

/// A command to the terminal.
#[derive(Debug, PartialEq, Eq)]
pub enum Command {
    /// Put the cursor on a cell.
    MoveTo(Position),
    /// Write bytes at the cursor, which moves on past them and wraps at the
    /// right margin.
    Print(Vec<u8>),
    /// Delete the character under the cursor; the rest of its row closes up.
    DeleteChar,
    /// Delete the row of the cursor; the rows below close up.
    DeleteLine,
    /// Let the scrolling region span every row of the screen.
    FitScrollRegion,
}

impl View for Command {
    type V = Op;

    open spec fn view(&self) -> Op {
        match *self {
            Command::MoveTo(at) => Op::MoveTo(at@),
            Command::Print(bytes) => Op::Print(bytes@),
            Command::DeleteChar => Op::DeleteChar,
            Command::DeleteLine => Op::DeleteLine,
            Command::FitScrollRegion => Op::FitScrollRegion,
        }
    }
}

impl DeepView for Command {
    type V = Op;

    open spec fn deep_view(&self) -> Op {
        self@
    }
}

/// The commands that delete the rows from `bottom` up to `top`, lowest first.
pub open spec fn clear_rows(top: int, bottom: int) -> Seq<Op>
    decreases bottom - top + 1,
{
    if bottom < top {
        Seq::empty()
    } else {
        seq![Op::MoveTo(Cell { x: 0, y: bottom }), Op::DeleteLine] + clear_rows(top, bottom - 1)
    }
}

/// Where the cursor stands after one byte was written at `at`: a line break
/// leads to the start of the next row, any other byte one step to the right.
pub open spec fn cell_after_byte(width: int, at: Cell, byte: u8) -> Cell {
    if byte == 0x0a {
        Cell { x: 0, y: at.y + 1 }
    } else {
        cell_right(width, at)
    }
}

/// Where the cursor stands after `bytes` were written at `at`.
pub open spec fn cell_after_bytes(width: int, at: Cell, bytes: Seq<u8>) -> Cell
    decreases bytes.len(),
{
    if bytes.len() == 0 {
        at
    } else {
        cell_after_byte(width, cell_after_bytes(width, at, bytes.drop_last()), bytes.last())
    }
}

/// Where a command leaves the cursor that stood at `at`, on a terminal that
/// has every cell that the command names.
pub open spec fn cursor_after(width: int, at: Cell, op: Op) -> Cell {
    match op {
        Op::MoveTo(to) => to,
        Op::Print(bytes) => cell_after_bytes(width, at, bytes),
        Op::DeleteChar | Op::DeleteLine | Op::FitScrollRegion => at,
    }
}

/// Where the commands, carried out in order, leave the cursor that stood at
/// `at`.
pub open spec fn cursor_after_all(width: int, at: Cell, ops: Seq<Op>) -> Cell
    decreases ops.len(),
{
    if ops.len() == 0 {
        at
    } else {
        cursor_after(width, cursor_after_all(width, at, ops.drop_last()), ops.last())
    }
}

/// Printable bytes move the cursor one step to the right each.
pub proof fn lemma_printing_steps_forward(width: int, at: Cell, bytes: Seq<u8>)
    requires
        printable_bytes(bytes),
    ensures
        cell_after_bytes(width, at, bytes) == cell_forward(width, at, bytes.len()),
    decreases bytes.len(),
{
    if bytes.len() > 0 {
        lemma_printing_steps_forward(width, at, bytes.drop_last());
        lemma_forward_one_more(width, at, (bytes.len() - 1) as nat);
    }
}

/// One more step to the right is a step to the right of where the steps
/// before it led.
pub proof fn lemma_forward_one_more(width: int, at: Cell, steps: nat)
    ensures
        cell_forward(width, at, steps + 1) == cell_right(width, cell_forward(width, at, steps)),
    decreases steps,
{
    reveal_with_fuel(cell_forward, 3);
    if steps > 0 {
        lemma_forward_one_more(width, cell_right(width, at), (steps - 1) as nat);
    }
}

/// Carrying out two runs of commands one after the other is carrying out
/// the second where the first left the cursor.
pub proof fn lemma_cursor_after_both(width: int, at: Cell, first: Seq<Op>, second: Seq<Op>)
    ensures
        cursor_after_all(width, at, first + second) == cursor_after_all(
            width,
            cursor_after_all(width, at, first),
            second,
        ),
    decreases second.len(),
{
    if second.len() == 0 {
        assert(first + second =~= first);
    } else {
        assert((first + second).drop_last() =~= first + second.drop_last());
        lemma_cursor_after_both(width, at, first, second.drop_last());
    }
}

/// One more command is carried out where the commands before it left the
/// cursor.
pub proof fn lemma_cursor_after_push(width: int, at: Cell, ops: Seq<Op>, op: Op)
    ensures
        cursor_after_all(width, at, ops.push(op)) == cursor_after(
            width,
            cursor_after_all(width, at, ops),
            op,
        ),
{
    assert(ops.push(op).drop_last() =~= ops);
}

/// Deleting rows leaves the cursor at the start of the topmost of them.
pub proof fn lemma_clear_rows_ends_on_top(width: int, at: Cell, top: int, bottom: int)
    requires
        top <= bottom,
    ensures
        cursor_after_all(width, at, clear_rows(top, bottom)) == (Cell { x: 0, y: top }),
    decreases bottom - top,
{
    let head = seq![Op::MoveTo(Cell { x: 0, y: bottom }), Op::DeleteLine];
    let rest = clear_rows(top, bottom - 1);
    lemma_cursor_after_both(width, at, head, rest);
    assert(cursor_after_all(width, at, head) == (Cell { x: 0, y: bottom })) by {
        reveal_with_fuel(cursor_after_all, 3);
        assert(head.drop_last().last() == Op::MoveTo(Cell { x: 0, y: bottom }));
    }
    if top < bottom {
        lemma_clear_rows_ends_on_top(width, Cell { x: 0, y: bottom }, top, bottom - 1);
    }
}

/// Appends one command.
pub(crate) fn emit(out: &mut Vec<Command>, command: Command)
    ensures
        final(out).deep_view() == old(out).deep_view().push(command@),
{
    out.push(command);
    assert(out.deep_view() =~= old(out).deep_view().push(command@));
}

/// The command that prints `text` and a line break.
pub fn print_line(text: &str) -> (command: Command)
    ensures
        command@ == Op::Print(text.spec_bytes().push(0x0a)),
{
    let mut bytes = text.as_bytes_vec();
    bytes.push(0x0a);
    Command::Print(bytes)
}

/// Appends the commands that delete the rows from `bottom` up to `top`,
/// lowest first.
pub(crate) fn emit_clear_rows(out: &mut Vec<Command>, top: i64, bottom: i64)
    requires
        -2 * MAX_COORDINATE <= top,
        bottom <= 2 * MAX_COORDINATE,
    ensures
        final(out).deep_view() == old(out).deep_view() + clear_rows(top as int, bottom as int),
{
    let mut row: i64 = bottom;
    while row >= top
        invariant
            top - 1 <= row <= bottom || bottom < top && row == bottom,
            -2 * MAX_COORDINATE <= top,
            bottom <= 2 * MAX_COORDINATE,
            out.deep_view() + clear_rows(top as int, row as int) == old(out).deep_view()
                + clear_rows(top as int, bottom as int),
        decreases row - top + 1,
    {
        let ghost before = out.deep_view();
        emit(out, Command::MoveTo(Position { x: 0, y: row }));
        emit(out, Command::DeleteLine);
        assert(out.deep_view() + clear_rows(top as int, row - 1) =~= before + clear_rows(
            top as int,
            row as int,
        ));
        row -= 1;
    }
    assert(clear_rows(top as int, row as int) =~= Seq::<Op>::empty());
    assert(out.deep_view() + Seq::<Op>::empty() =~= out.deep_view());
}

} // verus!
