use term_life::cells::CellSet;
use term_life::events::{handle_event, horizontal_layout, to_point_coord};
use term_life::events::{AppAction, InputEvent, PointerButton};
use term_life::state::{SimState, StatusMsg, MSG_DISPLAY_MS, UPDATE_MS};
use term_life::state::{elapsed, tick_interval};

const W: u16 = 20;
const H: u16 = 12;

fn set_of(s: &CellSet) -> Vec<(u16, u16)> {
    let mut v = Vec::new();
    for i in 0..s.len() {
        v.push(s.get(i));
    }
    v.sort();
    v
}

#[test]
fn new_state_is_paused_and_empty() {
    let s = SimState::new(7);
    assert!(!s.is_playing);
    assert_eq!(s.generation, 0);
    assert_eq!(s.speed_tenths(), 10);
    assert_eq!(s.alive_count(), 0);
    assert_eq!(s.msg, None);
    assert_eq!(s.last_updated_ms, 7);
}

#[test]
fn save_restore_round_trip() {
    let mut s = SimState::new(0);
    s.add_cell((2, 2));
    s.add_cell((4, 2));
    s.add_cell((6, 3));
    let saved = set_of(&s.alive);
    s.save_snapshot(10);
    // Mutate the live set in every way available.
    s.add_cell((8, 8));
    s.remove_cell((2, 2));
    s.clear();
    s.add_cell((0, 0));
    s.restore_snapshot(20);
    assert_eq!(set_of(&s.alive), saved);
    assert_eq!(s.msg, Some(StatusMsg::Loaded));
}

#[test]
fn restore_of_empty_save_overwrites_with_empty() {
    let mut s = SimState::new(0);
    s.add_cell((2, 2));
    s.restore_snapshot(5);
    assert_eq!(s.alive_count(), 0);
}

#[test]
fn speed_floor_sequence() {
    // 1.0 -> 0.5 -> 0.5 -> 0.5, never below.
    let mut s = SimState::new(0);
    assert_eq!(s.speed_tenths(), 10);
    s.decrease_speed();
    assert_eq!(s.speed_tenths(), 5);
    s.decrease_speed();
    assert_eq!(s.speed_tenths(), 5);
    s.decrease_speed();
    assert_eq!(s.speed_tenths(), 5);
    s.increase_speed();
    assert_eq!(s.speed_tenths(), 10);
    s.increase_speed();
    assert_eq!(s.speed_tenths(), 15);
}

#[test]
fn pointer_edits_are_ignored_while_playing() {
    let mut s = SimState::new(0);
    s.add_cell((4, 4));
    s.toggle_play();
    assert!(s.is_playing);
    let act = handle_event(
        &mut s,
        InputEvent::Pointer(PointerButton::Primary, 6, 6),
        0,
    );
    assert_eq!(act, AppAction::NeedRedraw(false));
    assert_eq!(set_of(&s.alive), vec![(4, 4)]);
    let act = handle_event(
        &mut s,
        InputEvent::Pointer(PointerButton::Secondary, 4, 4),
        0,
    );
    assert_eq!(act, AppAction::NeedRedraw(false));
    assert_eq!(set_of(&s.alive), vec![(4, 4)]);
}

#[test]
fn pointer_edits_apply_while_paused() {
    let mut s = SimState::new(0);
    let act = handle_event(
        &mut s,
        InputEvent::Pointer(PointerButton::Primary, 7, 3),
        0,
    );
    assert_eq!(act, AppAction::NeedRedraw(true));
    assert_eq!(set_of(&s.alive), vec![(6, 3)]);
    let act = handle_event(
        &mut s,
        InputEvent::Pointer(PointerButton::Secondary, 6, 3),
        0,
    );
    assert_eq!(act, AppAction::NeedRedraw(true));
    assert_eq!(s.alive_count(), 0);
}

#[test]
fn message_expires_after_its_display_window() {
    let mut s = SimState::new(0);
    s.save_snapshot(1000);
    assert_eq!(s.msg, Some(StatusMsg::Saved));
    // Present at T + 999 ...
    let changed = s.expire_message_if_due(1999);
    assert!(!changed);
    assert_eq!(s.msg, Some(StatusMsg::Saved));
    // ... still present at exactly T + 1000 ...
    let changed = s.expire_message_if_due(2000);
    assert!(!changed);
    // ... and gone at T + 1001.
    let changed = s.expire_message_if_due(2001);
    assert!(changed);
    assert_eq!(s.msg, None);
    assert_eq!(MSG_DISPLAY_MS, 1000);
}

#[test]
fn update_clears_expired_message_and_reports_redraw() {
    let mut s = SimState::new(0);
    s.save_snapshot(100);
    // Paused, so the only redraw source is message expiry.
    assert!(!s.update(1099, W, H));
    assert_eq!(s.msg, Some(StatusMsg::Saved));
    assert!(s.update(1101, W, H));
    assert_eq!(s.msg, None);
    assert_eq!(s.msg_start_ms, 100);
}

#[test]
fn clear_empties_cells_and_zeroes_generation() {
    let mut s = SimState::new(0);
    s.add_cell((2, 2));
    s.add_cell((4, 2));
    s.save_snapshot(1);
    s.toggle_play();
    let _ = s.update(500, W, H); // advance once so generation > 0
    assert_eq!(s.generation, 1);
    s.clear();
    assert!(!s.is_playing);
    assert_eq!(s.alive_count(), 0);
    assert_eq!(s.generation, 0);
    // The save slot is untouched by clear.
    s.restore_snapshot(2);
    assert_eq!(set_of(&s.alive), vec![(2, 2), (4, 2)]);
}

#[test]
fn reset_zeroes_generation_but_keeps_cells() {
    let mut s = SimState::new(0);
    s.add_cell((2, 2));
    s.toggle_play();
    let _ = s.update(500, W, H);
    assert_eq!(s.generation, 1);
    s.reset_generation();
    assert!(!s.is_playing);
    assert_eq!(s.generation, 0);
    // The lone cell died in the one advance; the set is whatever the
    // rule left, untouched by the reset itself.
    assert_eq!(s.alive_count(), 0);
}

#[test]
fn tick_fires_only_after_the_interval() {
    let mut s = SimState::new(0);
    s.add_cell((6, 5));
    s.add_cell((6, 6));
    s.add_cell((6, 7));
    s.toggle_play();
    // At speed 1.0 the interval is 200 ms; an elapsed time of exactly
    // 200 does not tick, 201 does.
    assert!(!s.update(200, W, H));
    assert_eq!(s.generation, 0);
    assert!(s.update(201, W, H));
    assert_eq!(s.generation, 1);
    assert_eq!(s.last_updated_ms, 201);
    assert_eq!(set_of(&s.alive), vec![(4, 6), (6, 6), (8, 6)]);
}

#[test]
fn slower_speed_stretches_the_interval() {
    let mut s = SimState::new(0);
    s.add_cell((6, 5));
    s.add_cell((6, 6));
    s.add_cell((6, 7));
    s.decrease_speed(); // 0.5x -> 400 ms interval
    s.toggle_play();
    assert!(!s.update(400, W, H));
    assert_eq!(s.generation, 0);
    assert!(s.update(401, W, H));
    assert_eq!(s.generation, 1);
}

#[test]
fn paused_state_never_ticks() {
    let mut s = SimState::new(0);
    s.add_cell((6, 5));
    s.add_cell((6, 6));
    s.add_cell((6, 7));
    assert!(!s.update(10_000, W, H));
    assert_eq!(s.generation, 0);
    assert_eq!(s.alive_count(), 3);
}

#[test]
fn tick_interval_rounds_to_nearest_ms() {
    assert_eq!(UPDATE_MS, 200);
    assert_eq!(tick_interval(2), 200); // 1.0x
    assert_eq!(tick_interval(1), 400); // 0.5x
    assert_eq!(tick_interval(3), 133); // 1.5x: 400/3 rounds to 133
    assert_eq!(tick_interval(4), 100); // 2.0x
    assert_eq!(tick_interval(16), 25); // 8.0x
}

#[test]
fn elapsed_saturates_at_zero() {
    assert_eq!(elapsed(10, 3), 7);
    assert_eq!(elapsed(3, 10), 0);
}

#[test]
fn key_events_drive_the_state_machine() {
    let mut s = SimState::new(0);
    assert_eq!(handle_event(&mut s, InputEvent::Char('q'), 0), AppAction::Quit);
    assert_eq!(
        handle_event(&mut s, InputEvent::Char(' '), 0),
        AppAction::NeedRedraw(true)
    );
    assert!(s.is_playing);
    assert_eq!(
        handle_event(&mut s, InputEvent::Char('x'), 0),
        AppAction::NeedRedraw(false)
    );
    assert!(s.is_playing);
    assert_eq!(
        handle_event(&mut s, InputEvent::Char('r'), 0),
        AppAction::NeedRedraw(true)
    );
    assert!(!s.is_playing);
    assert_eq!(
        handle_event(&mut s, InputEvent::ArrowDown, 0),
        AppAction::NeedRedraw(true)
    );
    assert_eq!(s.speed_tenths(), 5);
    assert_eq!(
        handle_event(&mut s, InputEvent::ArrowUp, 0),
        AppAction::NeedRedraw(true)
    );
    assert_eq!(s.speed_tenths(), 10);
    assert_eq!(
        handle_event(&mut s, InputEvent::Char('s'), 42),
        AppAction::NeedRedraw(true)
    );
    assert_eq!(s.msg, Some(StatusMsg::Saved));
    assert_eq!(s.msg_start_ms, 42);
    assert_eq!(
        handle_event(&mut s, InputEvent::Resize, 0),
        AppAction::NeedRedraw(true)
    );
}

#[test]
fn pointer_coordinates_normalize_to_even_columns() {
    assert_eq!(to_point_coord(5, 7), (6, 5));
    assert_eq!(to_point_coord(5, 6), (6, 5));
    assert_eq!(to_point_coord(0, 1), (0, 0));
    assert_eq!(to_point_coord(3, 0), (0, 3));
}

#[test]
fn layout_is_horizontal_only_when_both_texts_fit() {
    assert!(horizontal_layout(100, 20, 50));
    assert!(horizontal_layout(75, 20, 50));
    assert!(!horizontal_layout(74, 20, 50));
    assert!(!horizontal_layout(4, 0, 0));
}
