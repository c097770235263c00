//! Pointer move/resize gestures and the per-tick cursor update.

use way_cooler::cursor::CursorImage;
use way_cooler::geometry::{Area, Edges, Origin, Size};
use way_cooler::registry::Handle;
use way_cooler::seat::{Action, ButtonEvent, ButtonState, SetCursorEvent, SeatManager};
use way_cooler::server::Server;
use way_cooler::shells::xdg_v6::{XdgV6ShellSurface, XdgV6ShellManager};
use way_cooler::shells::Shell;
use way_cooler::output_manager::OutputManager;

fn fresh_server() -> Server {
    let mut server = Server::new(Handle { index: 900, generation: 1 });
    OutputManager::new().output_added(&mut server, 1);
    server
}

fn map_toplevel(server: &mut Server, surface_id: usize, size: Size) -> (Handle, Handle) {
    let surface = Handle { index: surface_id, generation: 1 };
    let record = XdgV6ShellSurface::new_toplevel(
        surface,
        Area { origin: Origin::new(0, 0), size },
    );
    let shell_surface = server.shells.xdg_v6.insert(record);
    let handler = XdgV6ShellManager.new_surface(shell_surface);
    handler.map_request(server, shell_surface).unwrap();
    (shell_surface, surface)
}

#[test]
fn resize_with_top_left_edges_shrinks_and_translates() {
    // Seat idle; begin_resize with edges {top, left}, original size
    // (200, 100), view origin (10, 10); the pointer then travels (+5, +5)
    // from the grab; the resulting rectangle is origin (15, 15), size
    // (195, 95).
    let mut server = fresh_server();
    let (shell_surface, _) = map_toplevel(&mut server, 1, Size::new(200, 100));
    server.views[0].origin = Origin::new(10, 10);
    server.cursor.x = 30;
    server.cursor.y = 40;
    assert!(server.seat.action.is_none());

    let view = server.views[0];
    let edges = Edges { top: true, bottom: false, left: true, right: false };
    server
        .seat
        .begin_resize(
            &server.cursor,
            &view,
            &mut server.views,
            &mut server.shells,
            &server.keyboard_registry,
            edges,
        )
        .unwrap();
    match server.seat.action {
        Some(Action::Resizing { start, offset, original_size, edges: e }) => {
            assert_eq!(start, Origin::new(10, 10));
            assert_eq!(offset, Origin::new(20, 30));
            assert_eq!(original_size, Size::new(200, 100));
            assert_eq!(e, edges);
        },
        other => panic!("expected a resizing action, found {:?}", other),
    }

    server.cursor.x = 35;
    server.cursor.y = 45;
    server.seat.update_cursor_position(
        &mut server.cursor,
        &mut server.views,
        &mut server.shells,
        None,
    );
    assert_eq!(server.views[0].origin, Origin::new(15, 15));
    let record = server.shells.xdg_v6.get(shell_surface).unwrap();
    assert_eq!(
        record.geometry,
        Area { origin: Origin::new(15, 15), size: Size::new(195, 95) }
    );
}

#[test]
fn resize_with_bottom_right_edges_grows_without_moving() {
    let mut server = fresh_server();
    let (shell_surface, _) = map_toplevel(&mut server, 1, Size::new(200, 100));
    server.views[0].origin = Origin::new(10, 10);
    server.cursor.x = 100;
    server.cursor.y = 80;

    let view = server.views[0];
    let edges = Edges { top: false, bottom: true, left: false, right: true };
    server
        .seat
        .begin_resize(
            &server.cursor,
            &view,
            &mut server.views,
            &mut server.shells,
            &server.keyboard_registry,
            edges,
        )
        .unwrap();

    server.cursor.x = 107;
    server.cursor.y = 83;
    server.seat.update_cursor_position(
        &mut server.cursor,
        &mut server.views,
        &mut server.shells,
        None,
    );
    // Origin never changes; width grows by +7 and height by +3.
    assert_eq!(server.views[0].origin, Origin::new(10, 10));
    let record = server.shells.xdg_v6.get(shell_surface).unwrap();
    assert_eq!(
        record.geometry,
        Area { origin: Origin::new(10, 10), size: Size::new(207, 103) }
    );
}

#[test]
fn move_request_arms_a_gesture_only_for_the_focused_shell() {
    let mut server = fresh_server();
    let (b, _) = map_toplevel(&mut server, 2, Size::new(10, 10));
    let (a, _) = map_toplevel(&mut server, 1, Size::new(10, 10));
    assert_eq!(server.seat.focused, Some(Shell::from_xdg_v6(a)));
    server.cursor.x = 8;
    server.cursor.y = 6;

    // A move request from the unfocused shell changes nothing.
    XdgV6ShellManager.new_surface(b).move_request(&mut server, b);
    assert!(server.seat.action.is_none());

    // One from the focused shell arms a move at the surface-local offset.
    server.views[0].origin = Origin::new(3, 2);
    XdgV6ShellManager.new_surface(a).move_request(&mut server, a);
    assert_eq!(server.seat.action, Some(Action::Moving { start: Origin::new(5, 4) }));
}

#[test]
fn moving_follows_the_pointer_at_the_grab_offset() {
    let mut server = fresh_server();
    map_toplevel(&mut server, 1, Size::new(10, 10));
    server.seat.action = Some(Action::Moving { start: Origin::new(5, 4) });
    server.cursor.x = 50;
    server.cursor.y = 40;
    server.seat.update_cursor_position(
        &mut server.cursor,
        &mut server.views,
        &mut server.shells,
        Some(1000),
    );
    assert_eq!(server.views[0].origin, Origin::new(45, 36));
    // The gesture stays armed until the button release consumes it.
    assert_eq!(server.seat.action, Some(Action::Moving { start: Origin::new(5, 4) }));
    server.seat.end_pointer_grab();
    assert!(server.seat.action.is_none());
}

#[test]
fn idle_tick_enters_the_first_hit_view() {
    let mut server = fresh_server();
    let (_, surface_b) = map_toplevel(&mut server, 2, Size::new(300, 300));
    let (_, surface_a) = map_toplevel(&mut server, 1, Size::new(100, 100));
    // Both views cover (40, 40); the front one (a) wins.
    server.cursor.x = 40;
    server.cursor.y = 40;
    server.seat.update_cursor_position(
        &mut server.cursor,
        &mut server.views,
        &mut server.shells,
        Some(7),
    );
    let focus = server.seat.pointer_focus.unwrap();
    assert_eq!(focus.surface, surface_a);
    assert_eq!((focus.sx, focus.sy), (40, 40));
    assert_eq!(focus.time_msec, Some(7));

    // Outside the front view but inside the larger one behind it.
    server.cursor.x = 200;
    server.cursor.y = 200;
    server.seat.update_cursor_position(
        &mut server.cursor,
        &mut server.views,
        &mut server.shells,
        None,
    );
    assert_eq!(server.seat.pointer_focus.unwrap().surface, surface_b);
}

#[test]
fn idle_tick_miss_restores_the_default_cursor() {
    let mut server = fresh_server();
    let (_, surface) = map_toplevel(&mut server, 1, Size::new(100, 100));
    // A client shows its own cursor image.
    SeatManager::new().cursor_set(
        &mut server.seat,
        &mut server.cursor,
        &SetCursorEvent { surface: Some(surface), hotspot_x: 1, hotspot_y: 2 },
    );
    assert!(server.seat.has_client_cursor);
    assert_eq!(
        server.cursor.image,
        CursorImage::ClientSurface { surface, hotspot_x: 1, hotspot_y: 2 }
    );

    // The pointer leaves every view: default image, flag cleared, no focus.
    server.cursor.x = 1000;
    server.cursor.y = 1000;
    server.seat.update_cursor_position(
        &mut server.cursor,
        &mut server.views,
        &mut server.shells,
        None,
    );
    assert!(!server.seat.has_client_cursor);
    assert_eq!(server.cursor.image, CursorImage::Default);
    assert!(server.seat.pointer_focus.is_none());
}

#[test]
fn hit_test_boundaries_are_half_open() {
    let mut server = fresh_server();
    map_toplevel(&mut server, 1, Size::new(100, 50));
    // (0, 0) is inside; (99, 49) is the last inside point; (100, 50) is out.
    server.cursor.x = 0;
    server.cursor.y = 0;
    server.seat.update_cursor_position(&mut server.cursor, &mut server.views, &mut server.shells, None);
    assert!(server.seat.pointer_focus.is_some());
    server.cursor.x = 99;
    server.cursor.y = 49;
    server.seat.update_cursor_position(&mut server.cursor, &mut server.views, &mut server.shells, None);
    assert!(server.seat.pointer_focus.is_some());
    server.cursor.x = 100;
    server.cursor.y = 50;
    server.seat.update_cursor_position(&mut server.cursor, &mut server.views, &mut server.shells, None);
    assert!(server.seat.pointer_focus.is_none());
}

#[test]
fn resize_with_no_edges_keeps_the_rectangle() {
    let mut server = fresh_server();
    let (shell_surface, _) = map_toplevel(&mut server, 1, Size::new(200, 100));
    server.views[0].origin = Origin::new(10, 10);
    server.cursor.x = 30;
    server.cursor.y = 40;
    let view = server.views[0];
    server
        .seat
        .begin_resize(
            &server.cursor,
            &view,
            &mut server.views,
            &mut server.shells,
            &server.keyboard_registry,
            Edges::none(),
        )
        .unwrap();
    server.cursor.x = 90;
    server.cursor.y = 90;
    server.seat.update_cursor_position(
        &mut server.cursor,
        &mut server.views,
        &mut server.shells,
        None,
    );
    assert_eq!(server.views[0].origin, Origin::new(10, 10));
    let record = server.shells.xdg_v6.get(shell_surface).unwrap();
    assert_eq!(
        record.geometry,
        Area { origin: Origin::new(10, 10), size: Size::new(200, 100) }
    );
}

#[test]
fn send_button_forwards_the_event_unmodified() {
    let server = fresh_server();
    let event = ButtonEvent { time_msec: 123, button: 272, state: ButtonState::Pressed };
    let forwarded = server.seat.send_button(&event);
    assert_eq!(forwarded, event);
}

#[test]
fn resizing_a_destroyed_shell_skips_the_tick() {
    let mut server = fresh_server();
    let (shell_surface, _) = map_toplevel(&mut server, 1, Size::new(200, 100));
    let view = server.views[0];
    server.cursor.x = 10;
    server.cursor.y = 10;
    server
        .seat
        .begin_resize(
            &server.cursor,
            &view,
            &mut server.views,
            &mut server.shells,
            &server.keyboard_registry,
            Edges { top: false, bottom: true, left: false, right: true },
        )
        .unwrap();
    server.shells.xdg_v6.destroy(shell_surface);
    server.cursor.x = 50;
    server.cursor.y = 50;
    server.seat.update_cursor_position(
        &mut server.cursor,
        &mut server.views,
        &mut server.shells,
        None,
    );
    // The resource is gone, so the tick changed nothing and did not panic.
    assert_eq!(server.views[0].origin, Origin::new(0, 0));
    assert!(server.shells.xdg_v6.get(shell_surface).is_none());
}
