use pointer_picking::cursor::{
    get_cursor_position, mouse_pick_events, update_cursor, CursorClick, CursorEntry, CursorId,
    CursorLocation, InputPluginSettings, UpdateMode, WindowSnapshot,
};
use pointer_picking::pointer::Location;
use pointer_picking::viewport::{RenderTargetRef, Vec2};

fn loc(window_id: u64, x: i32, y: i32) -> Location {
    Location {
        position: Vec2 { x, y },
        target: RenderTargetRef::Window(window_id),
    }
}

fn mouse_entry(location: Option<Location>) -> CursorEntry {
    CursorEntry {
        id: CursorId::Mouse,
        location: CursorLocation { location },
    }
}

fn touch_entry(id: u64, location: Option<Location>) -> CursorEntry {
    CursorEntry {
        id: CursorId::Touch(id),
        location: CursorLocation { location },
    }
}

#[test]
fn first_window_with_a_cursor_wins() {
    let windows = vec![
        WindowSnapshot { id: 1, cursor_position: None },
        WindowSnapshot { id: 2, cursor_position: Some(Vec2 { x: 30, y: 40 }) },
        WindowSnapshot { id: 3, cursor_position: Some(Vec2 { x: 70, y: 80 }) },
    ];
    assert_eq!(get_cursor_position(&windows), Some(loc(2, 30, 40)));
}

#[test]
fn no_window_sees_the_cursor() {
    let windows = vec![
        WindowSnapshot { id: 1, cursor_position: None },
        WindowSnapshot { id: 2, cursor_position: None },
    ];
    assert_eq!(get_cursor_position(&windows), None);
    assert_eq!(get_cursor_position(&vec![]), None);
}

#[test]
fn first_observed_position_spawns_the_mouse_cursor() {
    let mut cursors = vec![touch_entry(0, None)];
    let new_location = Some(loc(1, 10, 20));
    let spawn = update_cursor(&mut cursors, &new_location);
    let bundle = spawn.expect("no mouse cursor is tracked yet, one must be spawned");
    assert_eq!(bundle.id, CursorId::Mouse);
    assert_eq!(bundle.location.location, new_location);
    assert_eq!(bundle.click, CursorClick { is_clicked: false });
    // The scan itself changed nothing.
    assert_eq!(cursors, vec![touch_entry(0, None)]);
}

#[test]
fn changed_location_overwrites_the_tracked_mouse_cursor() {
    let mut cursors = vec![
        touch_entry(0, Some(loc(1, 1, 1))),
        mouse_entry(Some(loc(1, 10, 20))),
    ];
    let new_location = Some(loc(1, 11, 21));
    let spawn = update_cursor(&mut cursors, &new_location);
    assert_eq!(spawn, None);
    assert_eq!(cursors[1].location.location, new_location);
    // Non-mouse entries are passed over.
    assert_eq!(cursors[0], touch_entry(0, Some(loc(1, 1, 1))));
}

#[test]
fn unchanged_location_mutates_nothing() {
    let stored = Some(loc(1, 10, 20));
    let before = vec![mouse_entry(stored)];
    let mut cursors = before.clone();
    let spawn = update_cursor(&mut cursors, &stored);
    assert_eq!(spawn, None);
    assert_eq!(cursors, before);
}

#[test]
fn leaving_every_window_clears_the_location() {
    let mut cursors = vec![mouse_entry(Some(loc(1, 10, 20)))];
    let spawn = update_cursor(&mut cursors, &None);
    assert_eq!(spawn, None);
    assert_eq!(cursors[0].location.location, None);
}

#[test]
fn on_event_mode_skips_a_tick_without_events() {
    let settings = InputPluginSettings { mode: UpdateMode::OnEvent };
    let windows = vec![WindowSnapshot { id: 1, cursor_position: Some(Vec2 { x: 5, y: 6 }) }];
    let before = vec![mouse_entry(None)];
    let mut cursors = before.clone();
    let spawn = mouse_pick_events(&settings, &windows, false, false, &mut cursors);
    assert_eq!(spawn, None);
    assert_eq!(cursors, before);
}

#[test]
fn on_event_mode_updates_when_an_event_fired() {
    let settings = InputPluginSettings { mode: UpdateMode::OnEvent };
    let windows = vec![WindowSnapshot { id: 1, cursor_position: Some(Vec2 { x: 5, y: 6 }) }];
    let mut cursors = vec![mouse_entry(None)];
    let spawn = mouse_pick_events(&settings, &windows, true, false, &mut cursors);
    assert_eq!(spawn, None);
    assert_eq!(cursors[0].location.location, Some(loc(1, 5, 6)));
}

#[test]
fn every_frame_mode_updates_without_events() {
    let settings = InputPluginSettings { mode: UpdateMode::EveryFrame };
    let windows = vec![WindowSnapshot { id: 1, cursor_position: Some(Vec2 { x: 5, y: 6 }) }];
    let mut cursors = vec![mouse_entry(Some(loc(1, 4, 6)))];
    let spawn = mouse_pick_events(&settings, &windows, false, false, &mut cursors);
    assert_eq!(spawn, None);
    assert_eq!(cursors[0].location.location, Some(loc(1, 5, 6)));
}

#[test]
fn a_leave_event_alone_triggers_the_update() {
    // The cursor left the only window: the tick must run so the tracked
    // location is cleared.
    let settings = InputPluginSettings { mode: UpdateMode::OnEvent };
    let windows = vec![WindowSnapshot { id: 1, cursor_position: None }];
    let mut cursors = vec![mouse_entry(Some(loc(1, 4, 6)))];
    let spawn = mouse_pick_events(&settings, &windows, false, true, &mut cursors);
    assert_eq!(spawn, None);
    assert_eq!(cursors[0].location.location, None);
}
