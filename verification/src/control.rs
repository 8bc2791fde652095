//! The control loop's decisions: the key-to-command table, the dispatch of a
//! command to a board operation, and the tick arithmetic. The loop itself —
//! drawing, polling for a key with a timeout, measuring elapsed time — lives
//! outside the crate; it hands each decision to these functions as plain
//! values.

use vstd::prelude::*;
use crate::board::{
    Board, delete_sel, next_sel, next_status_spec, prev_sel, prev_status_spec, BoardView,
};
use crate::logqueue::{rotate1, LogQueue};

verus! {

/// Milliseconds between two log rotations.
pub const TICK_INTERVAL_MS: u64 = 250;

/// A key press, as the input collaborator reports it. Keys the table below
/// does not name are handed over as `Char` and ignored.
#[derive(Clone, Copy, Debug, PartialEq, Eq, Structural)]
pub enum Key {
    Char(char),
    Left,
    Down,
    Up,
}

/// What one key press asks of the board, or termination.
#[derive(Clone, Copy, Debug, PartialEq, Eq, Structural)]
pub enum Command {
    Quit,
    Unselect,
    SelectNext,
    SelectPrevious,
    CycleForward,
    CycleBackward,
    DeleteSelected,
}

/// The key table: q quits; Left unselects; Down and j select the next item;
/// Up and k select the previous one; l and h cycle the active column forward
/// and backward; x deletes the selected item. Every other key does nothing.
pub open spec fn command_for_key_spec(k: Key) -> Option<Command> {
    match k {
        Key::Left => Some(Command::Unselect),
        Key::Down => Some(Command::SelectNext),
        Key::Up => Some(Command::SelectPrevious),
        Key::Char(c) => if c == 'q' {
            Some(Command::Quit)
        } else if c == 'j' {
            Some(Command::SelectNext)
        } else if c == 'k' {
            Some(Command::SelectPrevious)
        } else if c == 'l' {
            Some(Command::CycleForward)
        } else if c == 'h' {
            Some(Command::CycleBackward)
        } else if c == 'x' {
            Some(Command::DeleteSelected)
        } else {
            None
        },
    }
}

pub fn command_for_key(k: Key) -> (r: Option<Command>)
    ensures
        r == command_for_key_spec(k),
{
    match k {
        Key::Left => Some(Command::Unselect),
        Key::Down => Some(Command::SelectNext),
        Key::Up => Some(Command::SelectPrevious),
        Key::Char(c) => {
            if c == 'q' {
                Some(Command::Quit)
            } else if c == 'j' {
                Some(Command::SelectNext)
            } else if c == 'k' {
                Some(Command::SelectPrevious)
            } else if c == 'l' {
                Some(Command::CycleForward)
            } else if c == 'h' {
                Some(Command::CycleBackward)
            } else if c == 'x' {
                Some(Command::DeleteSelected)
            } else {
                None
            }
        },
    }
}

/// The board after one command. `Quit` leaves the board untouched; every
/// other command is the corresponding board operation.
pub open spec fn board_step(bv: BoardView, cmd: Command) -> BoardView {
    match cmd {
        Command::Quit => bv,
        Command::Unselect => BoardView { selected: None, ..bv },
        Command::SelectNext => BoardView {
            selected: next_sel(bv.selected, bv.items.len() as int),
            ..bv
        },
        Command::SelectPrevious => BoardView {
            selected: prev_sel(bv.selected, bv.items.len() as int),
            ..bv
        },
        Command::CycleForward => BoardView {
            active_column: next_status_spec(bv.active_column),
            ..bv
        },
        Command::CycleBackward => BoardView {
            active_column: prev_status_spec(bv.active_column),
            ..bv
        },
        Command::DeleteSelected => match bv.selected {
            None => bv,
            Some(i) => BoardView {
                items: bv.items.remove(i),
                selected: delete_sel(bv.items.len() as int, i),
                ..bv
            },
        },
    }
}

/// Apply one command to the board; reports whether termination was requested.
pub fn apply_command(board: &mut Board, cmd: Command) -> (terminate: bool)
    requires
        old(board).wf(),
    ensures
        final(board).wf(),
        final(board)@ == board_step(old(board)@, cmd),
        terminate == (cmd is Quit),
{
    match cmd {
        Command::Quit => true,
        Command::Unselect => {
            board.unselect();
            false
        },
        Command::SelectNext => {
            board.select_next();
            false
        },
        Command::SelectPrevious => {
            board.select_previous();
            false
        },
        Command::CycleForward => {
            board.cycle_active_column_forward();
            false
        },
        Command::CycleBackward => {
            board.cycle_active_column_backward();
            false
        },
        Command::DeleteSelected => {
            board.delete_selected();
            false
        },
    }
}

/// How long the poll may block: the time left until the next tick, clamped
/// at zero once the interval has already elapsed.
pub fn poll_timeout_ms(elapsed_ms: u64) -> (r: u64)
    ensures
        r == if elapsed_ms >= TICK_INTERVAL_MS {
            0u64
        } else {
            (TICK_INTERVAL_MS - elapsed_ms) as u64
        },
{
    if elapsed_ms >= TICK_INTERVAL_MS {
        0
    } else {
        TICK_INTERVAL_MS - elapsed_ms
    }
}

/// Whether the tick interval has elapsed, so the log queue must rotate.
pub fn tick_due(elapsed_ms: u64) -> (r: bool)
    ensures
        r == (elapsed_ms >= TICK_INTERVAL_MS),
{
    elapsed_ms >= TICK_INTERVAL_MS
}

/// One iteration of the control loop, after rendering and polling: dispatch
/// the key press, if any, then — unless termination was requested — rotate
/// the log queue if the tick interval has elapsed. Returns (terminate,
/// ticked); the caller resets its tick clock exactly when `ticked` holds.
pub fn loop_iteration(board: &mut Board, logs: &mut LogQueue, key: Option<Key>, elapsed_ms: u64)
    -> (r: (bool, bool))
    requires
        old(board).wf(),
    ensures
        final(board).wf(),
        r.0 == (match key {
            Some(k) => command_for_key_spec(k) == Some(Command::Quit),
            None => false,
        }),
        final(board)@ == (match key {
            Some(k) => match command_for_key_spec(k) {
                Some(cmd) => board_step(old(board)@, cmd),
                None => old(board)@,
            },
            None => old(board)@,
        }),
        r.1 == (!r.0 && elapsed_ms >= TICK_INTERVAL_MS),
        final(logs)@ == if r.1 {
            rotate1(old(logs)@)
        } else {
            old(logs)@
        },
{
    let mut terminate = false;
    if let Some(k) = key {
        if let Some(cmd) = command_for_key(k) {
            terminate = apply_command(board, cmd);
        }
    }
    if terminate {
        return (true, false);
    }
    if tick_due(elapsed_ms) {
        logs.advance();
        (false, true)
    } else {
        (false, false)
    }
}

} // verus!
