//! Input-device hotplug handling and seat capability negotiation.

use vstd::prelude::*;

use crate::registry::Handle;
use crate::seat::{Capabilities, Capability, Seat};
use crate::server::Server;

verus! {

/// Handles input-device hotplug.
pub struct InputManager;

/// The capability set after one more pointer device is registered, given
/// how many pointers were registered before: the bit is set by the first
/// pointer and the set is not touched by any later one.
pub open spec fn capabilities_after_pointer_added(caps: Capabilities, pointers_before: nat) -> Capabilities {
    if pointers_before == 0 {
        Capabilities { pointer: true, ..caps }
    } else {
        caps
    }
}

/// Registering any number of pointer devices in sequence sets the pointer
/// capability bit exactly once: the first hotplug sets it, every later
/// hotplug leaves the whole capability set untouched, and in particular
/// three hotplugs in a row end with the set the first one produced.
pub proof fn lemma_pointer_capability_set_once(caps: Capabilities, n: nat)
    ensures
        capabilities_after_pointer_added(caps, 0).pointer,
        n >= 1 ==> capabilities_after_pointer_added(
            capabilities_after_pointer_added(caps, 0),
            n,
        ) == capabilities_after_pointer_added(caps, 0),
        ({
            let after_first = capabilities_after_pointer_added(caps, 0);
            let after_second = capabilities_after_pointer_added(after_first, 1);
            let after_third = capabilities_after_pointer_added(after_second, 2);
            after_first.pointer && after_second == after_first && after_third == after_first
        }),
{
}

impl InputManager {
    pub fn new() -> (r: InputManager) {
        InputManager
    }

    /// A keyboard appeared: register it, advertise the keyboard capability
    /// (idempotently) and bind the device as the seat's active keyboard.
    pub fn keyboard_added(&self, server: &mut Server, keyboard: Handle)
        ensures
            final(server).keyboards@ == old(server).keyboards@.push(keyboard),
            final(server).seat == (Seat {
                capabilities: (Capabilities { keyboard: true, ..old(server).seat.capabilities }),
                keyboard: Some(keyboard),
                ..old(server).seat
            }),
            final(server).cursor == old(server).cursor,
            final(server).xcursor_manager.loaded_scales == old(
                server,
            ).xcursor_manager.loaded_scales,
            final(server).layout.outputs == old(server).layout.outputs,
            final(server).views == old(server).views,
            final(server).outputs == old(server).outputs,
            final(server).output_registry == old(server).output_registry,
            final(server).focused_output == old(server).focused_output,
            final(server).keyboard_registry == old(server).keyboard_registry,
            final(server).pointers == old(server).pointers,
            final(server).shells.xdg_v6 == old(server).shells.xdg_v6,
            final(server).shells.layers == old(server).shells.layers,
    {
        server.keyboards.push(keyboard);
        server.seat.capabilities.insert(Capability::Keyboard);
        server.seat.keyboard = Some(keyboard);
    }

    /// A pointer appeared: register it, advertise the pointer capability if
    /// and only if this is the first pointer (the capability set is not
    /// touched on later hotplugs), and attach the device to the shared
    /// cursor regardless of ordinal.
    pub fn pointer_added(&self, server: &mut Server, pointer: Handle)
        ensures
            final(server).pointers@ == old(server).pointers@.push(pointer),
            final(server).seat == (Seat {
                capabilities: capabilities_after_pointer_added(
                    old(server).seat.capabilities,
                    old(server).pointers@.len(),
                ),
                ..old(server).seat
            }),
            final(server).cursor.attached_devices@ == old(
                server,
            ).cursor.attached_devices@.push(pointer),
            final(server).cursor.x == old(server).cursor.x,
            final(server).cursor.y == old(server).cursor.y,
            final(server).cursor.image == old(server).cursor.image,
            final(server).cursor.layout_attached == old(server).cursor.layout_attached,
            final(server).xcursor_manager.loaded_scales == old(
                server,
            ).xcursor_manager.loaded_scales,
            final(server).layout.outputs == old(server).layout.outputs,
            final(server).views == old(server).views,
            final(server).outputs == old(server).outputs,
            final(server).output_registry == old(server).output_registry,
            final(server).focused_output == old(server).focused_output,
            final(server).keyboards == old(server).keyboards,
            final(server).keyboard_registry == old(server).keyboard_registry,
            final(server).shells.xdg_v6 == old(server).shells.xdg_v6,
            final(server).shells.layers == old(server).shells.layers,
    {
        let first = server.pointers.len() == 0;
        server.pointers.push(pointer);
        if first {
            server.seat.capabilities.insert(Capability::Pointer);
        }
        server.cursor.attach_input_device(pointer);
    }
}

} // verus!
