//! The controller's decisions: what each input event does to the
//! simulation state, and what the front end owes afterwards (a redraw,
//! or quitting). The front end polls for events, maps them into
//! `InputEvent`, and performs the returned `AppAction`.

use vstd::prelude::*;
use crate::cells::Coord;
use crate::state::SimState;
use crate::state::{
    play_toggled, generation_reset, board_cleared, snapshot_saved, snapshot_restored,
    speed_increased, speed_decreased, cell_added, cell_removed,
};

verus! {

/// Which pointer button acted: the primary button adds cells, the
/// secondary one removes them. A press and a drag act alike.
#[derive(Clone, Copy, PartialEq, Eq, Structural, Debug)]
pub enum PointerButton {
    Primary,
    Secondary,
}

/// One input event, as the front end hands it in.
#[derive(Clone, Copy, PartialEq, Eq, Structural, Debug)]
pub enum InputEvent {
    /// A character key.
    Char(char),
    /// The speed-up arrow key.
    ArrowUp,
    /// The speed-down arrow key.
    ArrowDown,
    /// A pointer press or drag at (column, row).
    Pointer(PointerButton, u16, u16),
    /// The terminal was resized.
    Resize,
}

/// What the front end must do after an event is handled.
#[derive(Clone, Copy, PartialEq, Eq, Structural, Debug)]
pub enum AppAction {
    /// Redraw the screen before the next poll, or not.
    NeedRedraw(bool),
    /// Leave the event loop.
    Quit,
}

/// A pointer column snapped down to the glyph-aligned even column.
pub open spec fn norm_coord(column: u16, row: u16) -> Coord {
    (((column - column % 2) as u16), row)
}

/// The character keys that mutate state ('q' quits instead).
pub open spec fn recognized_key(k: char) -> bool {
    k == ' ' || k == 'r' || k == 'c' || k == 's' || k == 'l'
}

/// How the state after an event relates to the state before it.
/// Pointer events reach the cells only while paused; while playing
/// they change nothing. Unrecognized keys change nothing.
pub open spec fn transition(pre: SimState, post: SimState, ev: InputEvent, now: u64) -> bool {
    match ev {
        InputEvent::Char(k) => if k == ' ' {
            play_toggled(pre, post)
        } else if k == 'r' {
            generation_reset(pre, post)
        } else if k == 'c' {
            board_cleared(pre, post)
        } else if k == 's' {
            snapshot_saved(pre, post, now)
        } else if k == 'l' {
            snapshot_restored(pre, post, now)
        } else {
            post == pre
        },
        InputEvent::ArrowUp => speed_increased(pre, post),
        InputEvent::ArrowDown => speed_decreased(pre, post),
        InputEvent::Pointer(b, column, row) => if pre.is_playing {
            post == pre
        } else if b == PointerButton::Primary {
            cell_added(pre, post, norm_coord(column, row))
        } else {
            cell_removed(pre, post, norm_coord(column, row))
        },
        InputEvent::Resize => post == pre,
    }
}

/// The action each event earns: 'q' quits; recognized keys, arrows,
/// resizes, and paused pointer edits force a redraw; anything else does
/// not.
pub open spec fn action_of(pre: SimState, ev: InputEvent) -> AppAction {
    match ev {
        InputEvent::Char(k) => if k == 'q' {
            AppAction::Quit
        } else {
            AppAction::NeedRedraw(recognized_key(k))
        },
        InputEvent::ArrowUp => AppAction::NeedRedraw(true),
        InputEvent::ArrowDown => AppAction::NeedRedraw(true),
        InputEvent::Pointer(b, column, row) => AppAction::NeedRedraw(!pre.is_playing),
        InputEvent::Resize => AppAction::NeedRedraw(true),
    }
}

/// Snaps a pointer position to its logical cell: an odd column is
/// normalized down to the nearest even column.
pub fn to_point_coord(row: u16, column: u16) -> (c: Coord)
    ensures
        c == norm_coord(column, row),
{
    if column % 2 != 0 {
        (column - 1, row)
    } else {
        (column, row)
    }
}

/// Dispatches one input event at time `now_ms`: mutates the state as
/// `transition` says and returns the action `action_of` says.
pub fn handle_event(state: &mut SimState, ev: InputEvent, now_ms: u64) -> (act: AppAction)
    requires
        old(state).wf(),
    ensures
        final(state).wf(),
        transition(*old(state), *final(state), ev, now_ms),
        act == action_of(*old(state), ev),
{
    match ev {
        InputEvent::Char(k) => match k {
            'q' => AppAction::Quit,
            ' ' => {
                state.toggle_play();
                AppAction::NeedRedraw(true)
            },
            'r' => {
                state.reset_generation();
                AppAction::NeedRedraw(true)
            },
            'c' => {
                state.clear();
                AppAction::NeedRedraw(true)
            },
            's' => {
                state.save_snapshot(now_ms);
                AppAction::NeedRedraw(true)
            },
            'l' => {
                state.restore_snapshot(now_ms);
                AppAction::NeedRedraw(true)
            },
            _ => AppAction::NeedRedraw(false),
        },
        InputEvent::ArrowUp => {
            state.increase_speed();
            AppAction::NeedRedraw(true)
        },
        InputEvent::ArrowDown => {
            state.decrease_speed();
            AppAction::NeedRedraw(true)
        },
        InputEvent::Pointer(b, column, row) => {
            if state.is_playing {
                AppAction::NeedRedraw(false)
            } else {
                let c = to_point_coord(row, column);
                match b {
                    PointerButton::Primary => state.add_cell(c),
                    PointerButton::Secondary => state.remove_cell(c),
                }
                AppAction::NeedRedraw(true)
            }
        },
        InputEvent::Resize => AppAction::NeedRedraw(true),
    }
}

/// Law: no input event ever lowers the generation counter other than
/// the reset and clear keys, which zero it (and pause the simulation).
pub proof fn lemma_generation_only_reset_by_events(
    pre: SimState,
    post: SimState,
    ev: InputEvent,
    now: u64,
)
    requires
        transition(pre, post, ev, now),
    ensures
        post.generation == pre.generation || (post.generation == 0 && !post.is_playing && (ev
            == InputEvent::Char('r') || ev == InputEvent::Char('c'))),
{
}

/// Whether the status line and the keybinding legend fit side by side:
/// the terminal is `width` columns wide, the two texts are `info_len`
/// and `keybind_len` characters, and five columns of padding are owed.
pub fn horizontal_layout(width: u16, info_len: usize, keybind_len: usize) -> (r: bool)
    ensures
        r == (info_len + keybind_len + 5 <= width as int),
{
    let w = width as usize;
    if w < 5 {
        return false;
    }
    let room = w - 5;
    if info_len > room {
        return false;
    }
    keybind_len <= room - info_len
}

} // verus!
