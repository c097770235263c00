//! The compositor context: one explicit object owning outputs, views, the
//! seat and the device lists, threaded through every event-handling entry
//! point instead of ambient global state.

use vstd::prelude::*;
use vstd::view::View as _;

use crate::cursor::{Cursor, XCursorManager};
use crate::output_manager::{Output, OutputLayout};
use crate::registry::{Handle, Registry};
use crate::seat::{Keyboard, Seat};
use crate::shells::Shells;
use crate::view::View;

verus! {

/// Everything one compositor session owns.
pub struct Server {
    /// The seat state machine.
    pub seat: Seat,
    /// The shared hardware cursor.
    pub cursor: Cursor,
    /// The cursor theme manager.
    pub xcursor_manager: XCursorManager,
    /// The global output layout.
    pub layout: OutputLayout,
    /// The mapped windows, in most-recently-focused order.
    pub views: Vec<View>,
    /// The outputs, in hotplug order.
    pub outputs: Vec<Handle>,
    /// The records of the live outputs.
    pub output_registry: Registry<Output>,
    /// The output new windows are placed on, if any.
    pub focused_output: Option<Handle>,
    /// The keyboard devices, in hotplug order.
    pub keyboards: Vec<Handle>,
    /// The records of the live keyboard devices.
    pub keyboard_registry: Registry<Keyboard>,
    /// The pointer devices, in hotplug order.
    pub pointers: Vec<Handle>,
    /// The resource tables of all live shell surfaces.
    pub shells: Shells,
}

impl Server {
    /// A fresh session: no output, no view, no device, an idle seat whose
    /// own resource is `seat`.
    pub fn new(seat: Handle) -> (r: Server)
        ensures
            r.seat.seat == seat,
            r.seat.focused is None,
            r.seat.action is None,
            !r.seat.has_client_cursor,
            !r.seat.meta,
            r.seat.drag_icons@ == Seq::<crate::seat::DragIcon>::empty(),
            r.seat.capabilities == (crate::seat::Capabilities {
                keyboard: false,
                pointer: false,
                touch: false,
            }),
            r.seat.keyboard is None,
            r.seat.keyboard_focus is None,
            r.seat.pointer_focus is None,
            r.cursor.x == 0 && r.cursor.y == 0,
            r.cursor.image is Default,
            r.cursor.attached_devices@ == Seq::<Handle>::empty(),
            !r.cursor.layout_attached,
            r.xcursor_manager.loaded_scales@ == Seq::<u32>::empty(),
            r.layout.outputs@ == Seq::<Handle>::empty(),
            r.views@ == Seq::<View>::empty(),
            r.outputs@ == Seq::<Handle>::empty(),
            r.output_registry@ == Map::<Handle, Output>::empty(),
            r.focused_output is None,
            r.keyboards@ == Seq::<Handle>::empty(),
            r.keyboard_registry@ == Map::<Handle, Keyboard>::empty(),
            r.pointers@ == Seq::<Handle>::empty(),
            r.shells.xdg_v6@ == Map::<
                Handle,
                crate::shells::xdg_v6::XdgV6ShellSurface,
            >::empty(),
            r.shells.layers@ == Map::<Handle, crate::shells::layer_shell::LayerSurface>::empty(),
    {
        let r = Server {
            seat: Seat::new(seat),
            cursor: Cursor::new(),
            xcursor_manager: XCursorManager::new(),
            layout: OutputLayout::new(),
            views: Vec::new(),
            outputs: Vec::new(),
            output_registry: Registry::new(),
            focused_output: None,
            keyboards: Vec::new(),
            keyboard_registry: Registry::new(),
            pointers: Vec::new(),
            shells: Shells::new(),
        };
        proof {
            assert(r.views@ =~= Seq::<View>::empty());
            assert(r.outputs@ =~= Seq::<Handle>::empty());
            assert(r.keyboards@ =~= Seq::<Handle>::empty());
            assert(r.pointers@ =~= Seq::<Handle>::empty());
        }
        r
    }
}

/// The server fields that no shell-protocol event ever touches.
pub open spec fn shell_event_frame(pre: Server, post: Server) -> bool {
    &&& post.xcursor_manager.loaded_scales == pre.xcursor_manager.loaded_scales
    &&& post.layout.outputs == pre.layout.outputs
    &&& post.outputs == pre.outputs
    &&& post.output_registry == pre.output_registry
    &&& post.focused_output == pre.focused_output
    &&& post.keyboards == pre.keyboards
    &&& post.keyboard_registry == pre.keyboard_registry
    &&& post.pointers == pre.pointers
}

} // verus!
