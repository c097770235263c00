//! Focus and view-list lifecycle behaviour.

use way_cooler::geometry::{Area, Origin, Size};
use way_cooler::registry::Handle;
use way_cooler::seat::{Keyboard, PointerFocus};
use way_cooler::server::Server;
use way_cooler::shells::xdg_v6::{XdgV6ShellState, XdgV6ShellSurface, XdgV6ShellManager};
use way_cooler::shells::Shell;
use way_cooler::output_manager::OutputManager;
use way_cooler::error::CompositorError;

fn fresh_server() -> Server {
    let mut server = Server::new(Handle { index: 900, generation: 1 });
    let manager = OutputManager::new();
    manager.output_added(&mut server, 1);
    server
}

/// Creates a toplevel record of the given size and maps it; returns its
/// shell-surface handle and its display surface handle.
fn map_toplevel(server: &mut Server, surface_id: usize, size: Size) -> (Handle, Handle) {
    let surface = Handle { index: surface_id, generation: 1 };
    let record = XdgV6ShellSurface::new_toplevel(
        surface,
        Area { origin: Origin::new(0, 0), size },
    );
    let shell_surface = server.shells.xdg_v6.insert(record);
    let manager = XdgV6ShellManager;
    let handler = manager.new_surface(shell_surface);
    handler.map_request(server, shell_surface).unwrap();
    (shell_surface, surface)
}

fn activated(server: &Server, shell_surface: Handle) -> bool {
    match server.shells.xdg_v6.get(shell_surface) {
        Some(record) => record.state == XdgV6ShellState::TopLevel { activated: true },
        None => false,
    }
}

#[test]
fn focusing_the_focused_view_changes_nothing() {
    let mut server = fresh_server();
    let (a, _) = map_toplevel(&mut server, 1, Size::new(200, 100));
    let (b, _) = map_toplevel(&mut server, 2, Size::new(50, 50));
    // b was mapped last, so it is focused and in front.
    assert_eq!(server.seat.focused, Some(Shell::from_xdg_v6(b)));
    let order_before: Vec<Shell> = server.views.iter().map(|v| v.shell).collect();
    let was_a_active = activated(&server, a);
    let was_b_active = activated(&server, b);

    let front = server.views[0];
    let enter = server
        .seat
        .focus_view(&front, &mut server.views, &mut server.shells, &server.keyboard_registry)
        .unwrap();
    assert!(enter.is_none());

    let order_after: Vec<Shell> = server.views.iter().map(|v| v.shell).collect();
    assert_eq!(order_before, order_after);
    assert_eq!(activated(&server, a), was_a_active);
    assert_eq!(activated(&server, b), was_b_active);
    assert_eq!(server.seat.focused, Some(Shell::from_xdg_v6(b)));
}

#[test]
fn focus_view_moves_target_to_front_and_keeps_relative_order() {
    let mut server = fresh_server();
    let (a, _) = map_toplevel(&mut server, 1, Size::new(10, 10));
    let (b, _) = map_toplevel(&mut server, 2, Size::new(10, 10));
    let (c, _) = map_toplevel(&mut server, 3, Size::new(10, 10));
    // Mapping order leaves the list most-recently-focused first: [c, b, a].
    let shells_of = |server: &Server| -> Vec<Shell> {
        server.views.iter().map(|v| v.shell).collect()
    };
    assert_eq!(
        shells_of(&server),
        vec![Shell::from_xdg_v6(c), Shell::from_xdg_v6(b), Shell::from_xdg_v6(a)]
    );

    // Focus the middle entry: it moves to index 0, the rest keep their order.
    let target = server.views[1];
    server
        .seat
        .focus_view(&target, &mut server.views, &mut server.shells, &server.keyboard_registry)
        .unwrap();
    assert_eq!(
        shells_of(&server),
        vec![Shell::from_xdg_v6(b), Shell::from_xdg_v6(c), Shell::from_xdg_v6(a)]
    );
    assert_eq!(server.seat.focused, Some(Shell::from_xdg_v6(b)));
    assert!(activated(&server, b));
    assert!(!activated(&server, c));
}

#[test]
fn unmapping_the_sole_view_clears_focus() {
    let mut server = fresh_server();
    let (a, _) = map_toplevel(&mut server, 1, Size::new(200, 100));
    assert_eq!(server.views.len(), 1);
    let handler = XdgV6ShellManager.new_surface(a);
    handler.unmap_request(&mut server, a).unwrap();
    assert!(server.views.is_empty());
    assert_eq!(server.seat.focused, None);
    assert_eq!(server.seat.keyboard_focus, None);
}

#[test]
fn unmapping_an_unfocused_view_keeps_focus() {
    let mut server = fresh_server();
    let (b, _) = map_toplevel(&mut server, 2, Size::new(10, 10));
    let (a, _) = map_toplevel(&mut server, 1, Size::new(10, 10));
    // a is focused and in front; b is behind it.
    assert_eq!(server.seat.focused, Some(Shell::from_xdg_v6(a)));

    let handler = XdgV6ShellManager.new_surface(b);
    handler.unmap_request(&mut server, b).unwrap();
    assert_eq!(server.views.len(), 1);
    assert_eq!(server.views[0].shell, Shell::from_xdg_v6(a));
    // Focus stayed on a: the new front was already the focused view.
    assert_eq!(server.seat.focused, Some(Shell::from_xdg_v6(a)));
    assert!(activated(&server, a));
}

#[test]
fn unmapping_the_focused_view_refocuses_the_new_front() {
    let mut server = fresh_server();
    let (b, _) = map_toplevel(&mut server, 2, Size::new(10, 10));
    let (a, _) = map_toplevel(&mut server, 1, Size::new(10, 10));
    assert_eq!(server.seat.focused, Some(Shell::from_xdg_v6(a)));

    let handler = XdgV6ShellManager.new_surface(a);
    handler.unmap_request(&mut server, a).unwrap();
    assert_eq!(server.views.len(), 1);
    assert_eq!(server.seat.focused, Some(Shell::from_xdg_v6(b)));
    assert!(activated(&server, b));
}

#[test]
fn unmap_reruns_hit_testing_against_remaining_views() {
    // Two views A (focused) and B; B's shell unmaps; the list becomes [A],
    // the seat still focuses A, and hit-testing runs against [A] only.
    let mut server = fresh_server();
    let (b, _) = map_toplevel(&mut server, 2, Size::new(10, 10));
    let (a, surface_a) = map_toplevel(&mut server, 1, Size::new(200, 100));
    assert_eq!(server.seat.focused, Some(Shell::from_xdg_v6(a)));
    server.cursor.x = 5;
    server.cursor.y = 5;

    let handler = XdgV6ShellManager.new_surface(b);
    handler.unmap_request(&mut server, b).unwrap();

    assert_eq!(server.views.len(), 1);
    assert_eq!(server.views[0].shell, Shell::from_xdg_v6(a));
    assert_eq!(server.seat.focused, Some(Shell::from_xdg_v6(a)));
    assert_eq!(
        server.seat.pointer_focus,
        Some(PointerFocus { surface: surface_a, sx: 5, sy: 5, time_msec: None })
    );
}

#[test]
fn focus_carries_keyboard_state_into_the_enter_notification() {
    let mut server = fresh_server();
    let keyboard = server
        .keyboard_registry
        .insert(Keyboard { keycodes: vec![10, 20, 30], modifiers: 5 });
    way_cooler::input_manager::InputManager::new().keyboard_added(&mut server, keyboard);

    let (_, surface) = map_toplevel(&mut server, 1, Size::new(10, 10));
    // Map a second view, then refocus the first so the enter is observable.
    map_toplevel(&mut server, 2, Size::new(10, 10));
    let target = server.views[1];
    let enter = server
        .seat
        .focus_view(&target, &mut server.views, &mut server.shells, &server.keyboard_registry)
        .unwrap()
        .unwrap();
    assert_eq!(enter.surface, surface);
    assert_eq!(enter.keycodes, vec![10, 20, 30]);
    assert_eq!(enter.modifiers, 5);
    assert_eq!(server.seat.keyboard_focus, Some(surface));
}

#[test]
fn focusing_an_untracked_view_is_an_invariant_violation() {
    let mut server = fresh_server();
    map_toplevel(&mut server, 1, Size::new(10, 10));
    let stray_surface = Handle { index: 50, generation: 1 };
    let record = XdgV6ShellSurface::new_toplevel(
        stray_surface,
        Area { origin: Origin::new(0, 0), size: Size::new(10, 10) },
    );
    let stray = server.shells.xdg_v6.insert(record);
    let view = way_cooler::view::View::new(Shell::from_xdg_v6(stray), server.outputs[0]);
    let result = server.seat.focus_view(
        &view,
        &mut server.views,
        &mut server.shells,
        &server.keyboard_registry,
    );
    assert_eq!(result.unwrap_err(), CompositorError::InvariantViolation);
}

#[test]
fn mapping_a_destroyed_surface_reports_resource_gone() {
    let mut server = fresh_server();
    let surface = Handle { index: 7, generation: 1 };
    let record = XdgV6ShellSurface::new_toplevel(
        surface,
        Area { origin: Origin::new(0, 0), size: Size::new(10, 10) },
    );
    let shell_surface = server.shells.xdg_v6.insert(record);
    server.shells.xdg_v6.destroy(shell_surface);
    let handler = XdgV6ShellManager.new_surface(shell_surface);
    let result = handler.map_request(&mut server, shell_surface);
    assert_eq!(result.unwrap_err(), CompositorError::ResourceGone);
    assert!(server.views.is_empty());
}

#[test]
fn mapping_a_popup_creates_no_view() {
    let mut server = fresh_server();
    let surface = Handle { index: 8, generation: 1 };
    let record = XdgV6ShellSurface::new_popup(
        surface,
        Area { origin: Origin::new(0, 0), size: Size::new(10, 10) },
    );
    let shell_surface = server.shells.xdg_v6.insert(record);
    let handler = XdgV6ShellManager.new_surface(shell_surface);
    handler.map_request(&mut server, shell_surface).unwrap();
    assert!(server.views.is_empty());
    assert_eq!(server.seat.focused, None);
}

#[test]
fn mapping_an_already_tracked_surface_is_an_invariant_violation() {
    let mut server = fresh_server();
    let (a, _) = map_toplevel(&mut server, 1, Size::new(10, 10));
    let handler = XdgV6ShellManager.new_surface(a);
    let result = handler.map_request(&mut server, a);
    assert_eq!(result.unwrap_err(), CompositorError::InvariantViolation);
    assert_eq!(server.views.len(), 1);
}

#[test]
fn clearing_focus_on_a_destroyed_shell_reports_resource_gone() {
    let mut server = fresh_server();
    let (a, _) = map_toplevel(&mut server, 1, Size::new(10, 10));
    server.shells.xdg_v6.destroy(a);
    let result = server.seat.clear_focus(&mut server.shells);
    assert_eq!(result.unwrap_err(), CompositorError::ResourceGone);
    // The failed operation left the seat untouched.
    assert_eq!(server.seat.focused, Some(Shell::from_xdg_v6(a)));
}
