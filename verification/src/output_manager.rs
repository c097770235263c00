//! Output (display) hotplug handling.

use vstd::prelude::*;

use crate::cursor::{Cursor, CursorImage};
use crate::registry::Handle;
use crate::seat::Seat;
use crate::server::Server;

verus! {

/// The record of one live output.
#[derive(Clone, Copy, Debug, PartialEq, Eq, Structural)]
pub struct Output {
    /// The integer scale factor of the output's best mode.
    pub scale: u32,
}

/// The global output layout: outputs in the order automatic placement added
/// them.
pub struct OutputLayout {
    pub outputs: Vec<Handle>,
}

impl OutputLayout {
    /// An empty layout.
    pub fn new() -> (r: OutputLayout)
        ensures
            r.outputs@ == Seq::<Handle>::empty(),
    {
        let r = OutputLayout { outputs: Vec::new() };
        proof {
            assert(r.outputs@ =~= Seq::<Handle>::empty());
        }
        r
    }

    /// Adds an output with automatic placement.
    pub fn add_auto(&mut self, output: Handle)
        ensures
            final(self).outputs@ == old(self).outputs@.push(output),
    {
        self.outputs.push(output);
    }
}

/// Handles output hotplug.
pub struct OutputManager;

impl OutputManager {
    pub fn new() -> (r: OutputManager) {
        OutputManager
    }

    /// A new output appeared: build it at its best mode's scale, append it
    /// to the output list, make it the focused output if none is focused
    /// yet, attach it to the layout and the cursor to the layout, load the
    /// cursor theme at the output's scale, show the default cursor image and
    /// re-warp the cursor to its current position so the image and scale
    /// apply at once.  Returns the new output's handle.
    pub fn output_added(&self, server: &mut Server, scale: u32) -> (h: Handle)
        ensures
            !old(server).output_registry@.dom().contains(h),
            final(server).output_registry@ == old(server).output_registry@.insert(
                h,
                (Output { scale }),
            ),
            final(server).outputs@ == old(server).outputs@.push(h),
            final(server).focused_output == if old(server).focused_output is Some {
                old(server).focused_output
            } else {
                Some(h)
            },
            final(server).layout.outputs@ == old(server).layout.outputs@.push(h),
            final(server).xcursor_manager.loaded_scales@ == old(
                server,
            ).xcursor_manager.loaded_scales@.push(scale),
            final(server).cursor == (Cursor {
                image: CursorImage::Default,
                layout_attached: true,
                ..old(server).cursor
            }),
            final(server).seat == (Seat { has_client_cursor: false, ..old(server).seat }),
            final(server).views == old(server).views,
            final(server).keyboards == old(server).keyboards,
            final(server).keyboard_registry == old(server).keyboard_registry,
            final(server).pointers == old(server).pointers,
            final(server).shells.xdg_v6 == old(server).shells.xdg_v6,
            final(server).shells.layers == old(server).shells.layers,
    {
        let h = server.output_registry.insert(Output { scale });
        server.outputs.push(h);
        if server.focused_output.is_none() {
            server.focused_output = Some(h);
        }
        server.layout.add_auto(h);
        server.cursor.attach_output_layout();
        server.xcursor_manager.load(scale);
        server.xcursor_manager.set_default_image(&mut server.cursor);
        server.seat.has_client_cursor = false;
        let (x, y) = server.cursor.coords();
        server.cursor.warp(x, y);
        h
    }
}

} // verus!
