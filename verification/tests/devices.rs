//! Device hotplug, outputs, drag icons, resource tables, keybindings and
//! the remaining read accessors.

use way_cooler::client::get_client;
use way_cooler::error::CompositorError;
use way_cooler::geometry::{Area, Origin, Size};
use way_cooler::keybindings::{binding_matches, matching_bindings, KeyBinding, KeyPress};
use way_cooler::registry::{Handle, Registry};
use way_cooler::seat::SeatManager;
use way_cooler::server::Server;
use way_cooler::shells::layer_shell::{LayerShell, LayerShellManager, LayerSurface};
use way_cooler::shells::xdg_v6::{XdgV6ShellSurface, XdgV6ShellManager};
use way_cooler::shells::Shell;
use way_cooler::input_manager::InputManager;
use way_cooler::output_manager::OutputManager;
use way_cooler::view::View;

fn fresh_server() -> Server {
    let mut server = Server::new(Handle { index: 900, generation: 1 });
    OutputManager::new().output_added(&mut server, 1);
    server
}

#[test]
fn three_pointer_hotplugs_set_the_capability_bit_exactly_once() {
    let mut server = Server::new(Handle { index: 900, generation: 1 });
    let manager = InputManager::new();
    assert!(!server.seat.capabilities.pointer);

    manager.pointer_added(&mut server, Handle { index: 1, generation: 1 });
    assert!(server.seat.capabilities.pointer);
    let after_first = server.seat.capabilities;

    manager.pointer_added(&mut server, Handle { index: 2, generation: 1 });
    assert_eq!(server.seat.capabilities, after_first);
    manager.pointer_added(&mut server, Handle { index: 3, generation: 1 });
    assert_eq!(server.seat.capabilities, after_first);

    // Every pointer is attached to the shared cursor regardless of ordinal.
    assert_eq!(server.cursor.attached_devices.len(), 3);
    assert_eq!(server.pointers.len(), 3);
    assert!(!server.seat.capabilities.keyboard);
}

#[test]
fn keyboard_hotplug_is_idempotent_on_the_capability_set() {
    let mut server = Server::new(Handle { index: 900, generation: 1 });
    let manager = InputManager::new();
    let k1 = Handle { index: 1, generation: 1 };
    let k2 = Handle { index: 2, generation: 1 };
    manager.keyboard_added(&mut server, k1);
    assert!(server.seat.capabilities.keyboard);
    assert_eq!(server.seat.keyboard, Some(k1));
    manager.keyboard_added(&mut server, k2);
    assert!(server.seat.capabilities.keyboard);
    assert_eq!(server.seat.keyboard, Some(k2));
    assert_eq!(server.keyboards.len(), 2);
}

#[test]
fn first_output_becomes_focused_and_configures_the_cursor() {
    let mut server = Server::new(Handle { index: 900, generation: 1 });
    let manager = OutputManager::new();
    let first = manager.output_added(&mut server, 2);
    assert_eq!(server.focused_output, Some(first));
    assert_eq!(server.outputs, vec![first]);
    assert_eq!(server.layout.outputs, vec![first]);
    assert!(server.cursor.layout_attached);
    assert_eq!(server.xcursor_manager.loaded_scales, vec![2]);
    assert_eq!(server.output_registry.get(first).unwrap().scale, 2);

    // A second output joins the lists but focus stays on the first.
    let second = manager.output_added(&mut server, 1);
    assert_eq!(server.focused_output, Some(first));
    assert_eq!(server.outputs, vec![first, second]);
}

#[test]
fn layer_surfaces_default_to_the_first_output() {
    let mut server = fresh_server();
    let surface = Handle { index: 10, generation: 1 };
    let layer = server.shells.layers.insert(LayerSurface { surface, actual_size: Size::new(30, 20) });

    let mut chosen: Option<Handle> = None;
    let handler = LayerShellManager.new_surface(&server.outputs, &mut chosen, layer);
    assert_eq!(chosen, Some(server.outputs[0]));
    assert_eq!(handler, LayerShell::from_handle(layer));

    // An output supplied by the protocol layer is kept.
    let elsewhere = Handle { index: 77, generation: 3 };
    let mut given = Some(elsewhere);
    LayerShellManager.new_surface(&server.outputs, &mut given, layer);
    assert_eq!(given, Some(elsewhere));

    // Layer geometry reports origin (0, 0) with the committed size.
    let shell = Shell::from_layer(layer);
    let geometry = shell.geometry(&server.shells).unwrap();
    assert_eq!(geometry, Area { origin: Origin::new(0, 0), size: Size::new(30, 20) });

    let mut handler2 = LayerShell::from_handle(layer);
    handler2.on_map();
    assert!(handler2.mapped);
    handler2.on_unmap();
    assert!(!handler2.mapped);
}

#[test]
fn drag_icons_are_tracked_without_duplicates() {
    let mut server = fresh_server();
    let manager = SeatManager::new();
    let icon = Handle { index: 4, generation: 1 };
    manager.new_drag_icon(&mut server.seat, icon);
    manager.new_drag_icon(&mut server.seat, icon);
    assert_eq!(server.seat.drag_icons.len(), 1);
    assert_eq!(server.seat.drag_icons[0].handle, icon);

    let other = Handle { index: 5, generation: 1 };
    manager.new_drag_icon(&mut server.seat, other);
    assert_eq!(server.seat.drag_icons.len(), 2);

    manager.drag_icon_destroyed(&mut server.seat, icon);
    assert_eq!(server.seat.drag_icons.len(), 1);
    assert_eq!(server.seat.drag_icons[0].handle, other);
    // Destroying an untracked icon changes nothing.
    manager.drag_icon_destroyed(&mut server.seat, icon);
    assert_eq!(server.seat.drag_icons.len(), 1);
}

#[test]
fn registry_handles_fail_cleanly_after_destruction() {
    let mut table: Registry<u32> = Registry::new();
    let a = table.insert(11);
    let b = table.insert(22);
    assert_eq!(*table.get(a).unwrap(), 11);
    assert_eq!(*table.get(b).unwrap(), 22);

    assert!(table.destroy(a));
    assert!(table.get(a).is_none());
    assert!(!table.contains(a));
    assert!(!table.destroy(a));
    assert_eq!(*table.get(b).unwrap(), 22);

    // The slot may be reused, but under a higher generation: the stale
    // handle stays dead.
    let c = table.insert(33);
    assert!(table.get(a).is_none());
    assert_eq!(*table.get(c).unwrap(), 33);
    assert_ne!((a.index, a.generation), (c.index, c.generation));

    assert!(table.update(c, 34));
    assert_eq!(*table.get(c).unwrap(), 34);
    assert!(!table.update(a, 99));
}

#[test]
fn shell_accessors_report_typed_errors() {
    let mut server = fresh_server();
    let surface = Handle { index: 9, generation: 1 };
    let popup = server.shells.xdg_v6.insert(XdgV6ShellSurface::new_popup(
        surface,
        Area { origin: Origin::new(0, 0), size: Size::new(10, 10) },
    ));
    let shell = Shell::from_xdg_v6(popup);
    // Geometry of a non-toplevel protocol state is a typed mismatch.
    assert_eq!(
        shell.geometry(&server.shells).unwrap_err(),
        CompositorError::ProtocolStateMismatch
    );
    // The surface accessor still works while the resource lives.
    assert_eq!(shell.surface(&server.shells).unwrap(), surface);

    server.shells.xdg_v6.destroy(popup);
    assert_eq!(shell.surface(&server.shells).unwrap_err(), CompositorError::ResourceGone);
    assert_eq!(shell.geometry(&server.shells).unwrap_err(), CompositorError::ResourceGone);

    assert_eq!(CompositorError::ResourceGone.describe(), "resource gone");
    assert_eq!(CompositorError::ProtocolStateMismatch.describe(), "protocol state mismatch");
    assert_eq!(CompositorError::InvariantViolation.describe(), "invariant violation");
}

#[test]
fn view_surface_enumeration_lists_the_main_surface() {
    let mut server = fresh_server();
    let surface = Handle { index: 3, generation: 1 };
    let shell_surface = server.shells.xdg_v6.insert(XdgV6ShellSurface::new_toplevel(
        surface,
        Area { origin: Origin::new(0, 0), size: Size::new(10, 10) },
    ));
    let view = View::new(Shell::from_xdg_v6(shell_surface), server.outputs[0]);
    assert_eq!(view.surface(&server.shells).unwrap(), surface);
    assert_eq!(view.for_each_surface(&server.shells).unwrap(), vec![(surface, 0, 0)]);
    assert_eq!(view.get_size(&server.shells).unwrap(), Size::new(10, 10));

    server.shells.xdg_v6.destroy(shell_surface);
    assert_eq!(
        view.for_each_surface(&server.shells).unwrap_err(),
        CompositorError::ResourceGone
    );
}

#[test]
fn get_client_prefers_the_front_view_and_filters_by_output() {
    let out_a = Handle { index: 1, generation: 1 };
    let out_b = Handle { index: 2, generation: 1 };
    let s1 = Shell::from_xdg_v6(Handle { index: 11, generation: 1 });
    let s2 = Shell::from_xdg_v6(Handle { index: 12, generation: 1 });
    let s3 = Shell::from_xdg_v6(Handle { index: 13, generation: 1 });
    let views = vec![
        View::new(s1, out_a),
        View::new(s2, out_b),
        View::new(s3, out_a),
    ];
    assert_eq!(get_client(&views, None).unwrap().shell, s1);
    assert_eq!(get_client(&views, Some(out_b)).unwrap().shell, s2);
    assert_eq!(get_client(&views, Some(out_a)).unwrap().shell, s1);
    let empty: Vec<View> = Vec::new();
    assert!(get_client(&empty, None).is_none());
    assert!(get_client(&views, Some(Handle { index: 9, generation: 9 })).is_none());
}

#[test]
fn keybinding_match_follows_the_configured_rule() {
    let press = KeyPress { keysym: 0x61, keycode: 38 };

    // Keysym match with an exact modifier mask.
    let by_sym = KeyBinding { keysym: 0x61, keycode: 0, modifiers: 4 };
    assert!(binding_matches(&by_sym, &press, 4));
    assert!(!binding_matches(&by_sym, &press, 8));

    // A zero modifier mask matches any modifiers.
    let any_mods = KeyBinding { keysym: 0x61, keycode: 0, modifiers: 0 };
    assert!(binding_matches(&any_mods, &press, 0));
    assert!(binding_matches(&any_mods, &press, 12));

    // Keycode match when the keysym is unset.
    let by_code = KeyBinding { keysym: 0, keycode: 38, modifiers: 0 };
    assert!(binding_matches(&by_code, &press, 3));

    // Unset keysym and keycode never match, even with zero modifiers.
    let unset = KeyBinding { keysym: 0, keycode: 0, modifiers: 0 };
    assert!(!binding_matches(&unset, &press, 0));

    // The wrong key never matches, whatever the modifiers.
    let other = KeyBinding { keysym: 0x62, keycode: 40, modifiers: 0 };
    assert!(!binding_matches(&other, &press, 0));

    let bindings = vec![by_sym, any_mods, by_code, unset, other];
    assert_eq!(matching_bindings(&bindings, &press, 4), vec![0, 1, 2]);
    assert_eq!(matching_bindings(&bindings, &press, 8), vec![1, 2]);
}
