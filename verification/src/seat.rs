//! The seat state machine: focus, pointer gestures, capabilities, drag
//! icons, and the per-tick cursor update.

use vstd::prelude::*;
use vstd::view::View as _;

use crate::cursor::{Cursor, CursorImage};
use crate::error::CompositorError;
use crate::geometry::{clamp_i32, Area, Edges, Origin, Size};
use crate::registry::{Handle, Registry};
use crate::shells::{Shell, Shells, ShellsView};
use crate::shells::layer_shell::LayerSurface;
use crate::shells::xdg_v6::XdgV6ShellSurface;
use crate::view::View;

verus! {

/// Builds seat handlers; also receives seat-level protocol events
/// (client cursor images, new drag icons).
#[derive(Debug, Default)]
pub struct SeatManager;

/// The seat's current pointer gesture.
#[derive(Clone, Copy, Debug, PartialEq, Eq, Structural)]
pub enum Action {
    /// A view is being moved.  `start` is the surface-local offset of the
    /// first click, so the new origin is always `cursor - start`,
    /// independent of intermediate deltas.
    Moving { start: Origin },
    /// A view is being resized.  The grab-time origin, pointer offset and
    /// size let every tick rebuild the rectangle purely from the current
    /// pointer position, with no drift accumulation.
    Resizing { start: Origin, offset: Origin, original_size: Size, edges: Edges },
}

/// An active drag-and-drop cursor overlay, tracked by identity.
#[derive(Clone, Copy, Debug, PartialEq, Eq, Structural)]
pub struct DragIcon {
    pub handle: Handle,
}

/// Which device classes the seat currently advertises.
#[derive(Clone, Copy, Debug, PartialEq, Eq, Structural)]
pub struct Capabilities {
    pub keyboard: bool,
    pub pointer: bool,
    pub touch: bool,
}

/// One device class.
#[derive(Clone, Copy, Debug, PartialEq, Eq, Structural)]
pub enum Capability {
    Keyboard,
    Pointer,
    Touch,
}

impl Capabilities {
    /// No device class advertised.
    pub fn none() -> (r: Capabilities)
        ensures
            r == (Capabilities { keyboard: false, pointer: false, touch: false }),
    {
        Capabilities { keyboard: false, pointer: false, touch: false }
    }

    /// Adds one capability bit; adding a bit that is already set changes
    /// nothing.
    pub fn insert(&mut self, c: Capability)
        ensures
            *final(self) == match c {
                Capability::Keyboard => (Capabilities { keyboard: true, ..*old(self) }),
                Capability::Pointer => (Capabilities { pointer: true, ..*old(self) }),
                Capability::Touch => (Capabilities { touch: true, ..*old(self) }),
            },
    {
        match c {
            Capability::Keyboard => self.keyboard = true,
            Capability::Pointer => self.pointer = true,
            Capability::Touch => self.touch = true,
        }
    }
}

/// The tracked state of one keyboard device: its currently pressed keys and
/// modifier masks, as carried in keyboard-focus notifications.
#[derive(Debug)]
pub struct Keyboard {
    pub keycodes: Vec<u32>,
    pub modifiers: u32,
}

/// A keyboard-focus-enter notification, handed back to the protocol layer.
#[derive(Debug)]
pub struct KeyboardEnter {
    pub surface: Handle,
    pub keycodes: Vec<u32>,
    pub modifiers: u32,
}

/// The surface that currently has pointer focus, with the surface-local
/// coordinates and the timestamp of the motion that entered it.
#[derive(Clone, Copy, Debug, PartialEq, Eq, Structural)]
pub struct PointerFocus {
    pub surface: Handle,
    pub sx: i32,
    pub sy: i32,
    pub time_msec: Option<u32>,
}

/// A pointer button event as delivered by the protocol layer.
#[derive(Clone, Copy, Debug, PartialEq, Eq, Structural)]
pub enum ButtonState {
    Pressed,
    Released,
}

#[derive(Clone, Copy, Debug, PartialEq, Eq, Structural)]
pub struct ButtonEvent {
    pub time_msec: u32,
    pub button: u32,
    pub state: ButtonState,
}

/// A request by a client to show its own cursor image.
#[derive(Clone, Copy, Debug, PartialEq, Eq, Structural)]
pub struct SetCursorEvent {
    pub surface: Option<Handle>,
    pub hotspot_x: i32,
    pub hotspot_y: i32,
}

/// One logical input seat.
pub struct Seat {
    /// The seat's own protocol resource.
    pub seat: Handle,
    /// The shell of the focused view, if any; at most one view is focused.
    pub focused: Option<Shell>,
    /// The pointer gesture in progress, if any.
    pub action: Option<Action>,
    /// True iff the cursor image currently shown was supplied by a client
    /// surface rather than the compositor's default theme.
    pub has_client_cursor: bool,
    /// Whether the configured meta key is held.
    pub meta: bool,
    /// The active drag icons; never two entries for the same resource.
    pub drag_icons: Vec<DragIcon>,
    /// The advertised device classes.
    pub capabilities: Capabilities,
    /// The keyboard bound to the seat, if any.
    pub keyboard: Option<Handle>,
    /// The surface holding keyboard focus at the protocol level.
    pub keyboard_focus: Option<Handle>,
    /// The surface holding pointer focus, with entry coordinates.
    pub pointer_focus: Option<PointerFocus>,
}

/// `i` is the first position of `shell` in the view list.
pub open spec fn is_first_index(s: Seq<View>, shell: Shell, i: int) -> bool {
    &&& 0 <= i < s.len()
    &&& s[i].shell == shell
    &&& forall|j: int| 0 <= j < i ==> (#[trigger] s[j]).shell != shell
}

/// Some view in the list is backed by `shell`.
pub open spec fn contains_shell(s: Seq<View>, shell: Shell) -> bool {
    exists|i: int| 0 <= i < s.len() && (#[trigger] s[i]).shell == shell
}

/// The pointer position minus a reference point, clamped per axis: both the
/// surface-local grab offset and the origin of a moved view have this form.
pub open spec fn pointer_delta(cx: int, cy: int, p: Origin) -> Origin {
    Origin { x: clamp_i32(cx - p.x) as i32, y: clamp_i32(cy - p.y) as i32 }
}

/// The rectangle a resize gesture produces at pointer position `(cx, cy)`.
///
/// `(dx, dy)` is the pointer travel since the grab.  Dragging the bottom or
/// right edge grows the size without moving the origin; dragging the top or
/// left edge shrinks the size and translates the origin by the same delta.
/// The two axes are independent; on one axis, bottom wins over top and left
/// over right when both are set.
pub open spec fn resize_rect(
    cx: int,
    cy: int,
    start: Origin,
    offset: Origin,
    original_size: Size,
    edges: Edges,
) -> Area {
    let dx = cx - offset.x - start.x;
    let dy = cy - offset.y - start.y;
    let y = if !edges.bottom && edges.top {
        clamp_i32(start.y + dy)
    } else {
        start.y as int
    };
    let height = if edges.bottom {
        clamp_i32(original_size.height + dy)
    } else if edges.top {
        clamp_i32(original_size.height - dy)
    } else {
        original_size.height as int
    };
    let x = if edges.left {
        clamp_i32(start.x + dx)
    } else {
        start.x as int
    };
    let width = if edges.left {
        clamp_i32(original_size.width - dx)
    } else if edges.right {
        clamp_i32(original_size.width + dx)
    } else {
        original_size.width as int
    };
    Area {
        origin: Origin { x: x as i32, y: y as i32 },
        size: Size { width: width as i32, height: height as i32 },
    }
}

/// Resizing with both top and left edges active shrinks width and height by
/// the pointer delta and translates the origin by the same delta on both
/// axes (stated for deltas whose results stay in the 32-bit range, where no
/// clamping occurs).
pub proof fn lemma_resize_top_left(
    cx: int,
    cy: int,
    start: Origin,
    offset: Origin,
    original_size: Size,
    edges: Edges,
)
    requires
        edges.top && edges.left && !edges.bottom && !edges.right,
        i32::MIN <= start.x + (cx - offset.x - start.x) <= i32::MAX,
        i32::MIN <= start.y + (cy - offset.y - start.y) <= i32::MAX,
        i32::MIN <= original_size.width - (cx - offset.x - start.x) <= i32::MAX,
        i32::MIN <= original_size.height - (cy - offset.y - start.y) <= i32::MAX,
    ensures
        ({
            let dx = cx - offset.x - start.x;
            let dy = cy - offset.y - start.y;
            resize_rect(cx, cy, start, offset, original_size, edges) == (Area {
                origin: Origin { x: (start.x + dx) as i32, y: (start.y + dy) as i32 },
                size: Size {
                    width: (original_size.width - dx) as i32,
                    height: (original_size.height - dy) as i32,
                },
            })
        }),
{
}

/// Resizing with both bottom and right edges active grows width and height
/// by the pointer delta (exactly so while the results stay in the 32-bit
/// range) and never changes the origin, whatever the deltas are.
pub proof fn lemma_resize_bottom_right(
    cx: int,
    cy: int,
    start: Origin,
    offset: Origin,
    original_size: Size,
    edges: Edges,
)
    requires
        edges.bottom && edges.right && !edges.top && !edges.left,
    ensures
        resize_rect(cx, cy, start, offset, original_size, edges).origin == start,
        ({
            let dx = cx - offset.x - start.x;
            let dy = cy - offset.y - start.y;
            (i32::MIN <= original_size.width + dx <= i32::MAX && i32::MIN <= original_size.height
                + dy <= i32::MAX) ==> resize_rect(cx, cy, start, offset, original_size, edges).size
                == (Size {
                width: (original_size.width + dx) as i32,
                height: (original_size.height + dy) as i32,
            })
        }),
{
}

/// Does the pointer at `(cx, cy)` in layout coordinates land on this view?
pub open spec fn view_hit(v: View, shells: ShellsView, cx: int, cy: int) -> bool {
    v.shell.hits(shells, cx - v.origin.x, cy - v.origin.y)
}

/// `i` is the first view (in most-recently-focused order) hit by the
/// pointer.
pub open spec fn first_hit_index(s: Seq<View>, shells: ShellsView, cx: int, cy: int, i: int) -> bool {
    &&& 0 <= i < s.len()
    &&& view_hit(s[i], shells, cx, cy)
    &&& forall|j: int| 0 <= j < i ==> !view_hit(#[trigger] s[j], shells, cx, cy)
}

/// The pointer lands on some view of the list.
pub open spec fn some_hit(s: Seq<View>, shells: ShellsView, cx: int, cy: int) -> bool {
    exists|i: int| 0 <= i < s.len() && view_hit(#[trigger] s[i], shells, cx, cy)
}

/// No two drag icons stand for the same resource.
pub open spec fn no_duplicate_drag_icons(s: Seq<DragIcon>) -> bool {
    forall|i: int, j: int| 0 <= i < j < s.len() ==> (#[trigger] s[i]).handle != (#[trigger] s[j]).handle
}

/// Some tracked drag icon stands for this resource.
pub open spec fn contains_drag_icon(s: Seq<DragIcon>, handle: Handle) -> bool {
    exists|i: int| 0 <= i < s.len() && (#[trigger] s[i]).handle == handle
}

/// `i` is the first position of `handle` among the drag icons.
pub open spec fn is_first_drag_index(s: Seq<DragIcon>, handle: Handle, i: int) -> bool {
    &&& 0 <= i < s.len()
    &&& s[i].handle == handle
    &&& forall|j: int| 0 <= j < i ==> (#[trigger] s[j]).handle != handle
}

/// The seat fields that the drag-icon lifecycle never touches.
pub open spec fn same_but_drag_icons(pre: Seat, post: Seat) -> bool {
    &&& post.seat == pre.seat
    &&& post.focused == pre.focused
    &&& post.action == pre.action
    &&& post.has_client_cursor == pre.has_client_cursor
    &&& post.meta == pre.meta
    &&& post.capabilities == pre.capabilities
    &&& post.keyboard == pre.keyboard
    &&& post.keyboard_focus == pre.keyboard_focus
    &&& post.pointer_focus == pre.pointer_focus
}

/// The state change of an idle-action cursor tick: the view list is
/// hit-tested in most-recently-focused order.  On the first hit, pointer
/// focus enters that view's surface at the surface-local coordinates; on no
/// hit, pointer focus is cleared and, if a client-supplied cursor image was
/// shown, the default image is restored.
pub open spec fn idle_update(
    pre: Seat,
    post: Seat,
    pre_cursor: Cursor,
    post_cursor: Cursor,
    views: Seq<View>,
    shells: ShellsView,
    time_msec: Option<u32>,
) -> bool {
    &&& post.seat == pre.seat
    &&& post.focused == pre.focused
    &&& post.action == pre.action
    &&& post.meta == pre.meta
    &&& post.drag_icons == pre.drag_icons
    &&& post.capabilities == pre.capabilities
    &&& post.keyboard == pre.keyboard
    &&& post.keyboard_focus == pre.keyboard_focus
    &&& if some_hit(views, shells, pre_cursor.x as int, pre_cursor.y as int) {
        &&& post_cursor == pre_cursor
        &&& post.has_client_cursor == pre.has_client_cursor
        &&& forall|i: int|
            first_hit_index(views, shells, pre_cursor.x as int, pre_cursor.y as int, i)
                ==> post.pointer_focus == Some(
                PointerFocus {
                    surface: views[i].shell.surface_of(shells),
                    sx: (pre_cursor.x - views[i].origin.x) as i32,
                    sy: (pre_cursor.y - views[i].origin.y) as i32,
                    time_msec,
                },
            )
    } else {
        &&& post.pointer_focus is None
        &&& !post.has_client_cursor
        &&& post_cursor == if pre.has_client_cursor {
            Cursor { image: CursorImage::Default, ..pre_cursor }
        } else {
            pre_cursor
        }
    }
}

/// The keyboard-enter notification (if any) that giving keyboard focus to
/// `surface` issues, given the seat's bound keyboard and the live keyboard
/// table.
pub open spec fn enter_matches(
    pre_keyboard: Option<Handle>,
    keyboards: Map<Handle, Keyboard>,
    surface: Handle,
    en: Option<KeyboardEnter>,
) -> bool {
    match pre_keyboard {
        Some(kb) => if keyboards.dom().contains(kb) {
            en matches Some(e) && e.surface == surface && e.keycodes@ == keyboards[kb].keycodes@
                && e.modifiers == keyboards[kb].modifiers
        } else {
            en is None
        },
        None => en is None,
    }
}

/// The keyboard-focus field after giving focus to `surface`: it moves to
/// the surface only when a live keyboard is bound to the seat.
pub open spec fn keyboard_focus_after_focus(
    pre_keyboard: Option<Handle>,
    pre_keyboard_focus: Option<Handle>,
    keyboards: Map<Handle, Keyboard>,
    surface: Handle,
) -> Option<Handle> {
    match pre_keyboard {
        Some(kb) => if keyboards.dom().contains(kb) {
            Some(surface)
        } else {
            pre_keyboard_focus
        },
        None => pre_keyboard_focus,
    }
}

/// The complete state change of one cursor tick, as a relation between the
/// pre- and post-state of the seat, cursor, view list and shell tables.
pub open spec fn cursor_update_transition(
    pre: Seat,
    post: Seat,
    pre_cursor: Cursor,
    post_cursor: Cursor,
    pre_views: Seq<View>,
    post_views: Seq<View>,
    pre_shells: ShellsView,
    post_shells: ShellsView,
    time_msec: Option<u32>,
) -> bool {
    match pre.action {
        None => {
            &&& post_views == pre_views
            &&& post_shells == pre_shells
            &&& idle_update(pre, post, pre_cursor, post_cursor, pre_views, pre_shells, time_msec)
        },
        Some(Action::Moving { start }) => {
            &&& post == pre
            &&& post_cursor == pre_cursor
            &&& post_shells == pre_shells
            &&& match pre.focused {
                Some(sh) => if contains_shell(pre_views, sh) {
                    forall|i: int|
                        is_first_index(pre_views, sh, i) ==> post_views == pre_views.update(
                            i,
                            (View {
                                origin: pointer_delta(
                                    pre_cursor.x as int,
                                    pre_cursor.y as int,
                                    start,
                                ),
                                ..pre_views[i]
                            }),
                        )
                } else {
                    post_views == pre_views
                },
                None => post_views == pre_views,
            }
        },
        Some(Action::Resizing { start, offset, original_size, edges }) => {
            &&& post == pre
            &&& post_cursor == pre_cursor
            &&& match pre.focused {
                Some(sh) => if contains_shell(pre_views, sh) && sh.alive(pre_shells) {
                    ({
                        let rect = resize_rect(
                            pre_cursor.x as int,
                            pre_cursor.y as int,
                            start,
                            offset,
                            original_size,
                            edges,
                        );
                        &&& forall|i: int|
                            is_first_index(pre_views, sh, i) ==> post_views == pre_views.update(
                                i,
                                (View { origin: rect.origin, ..pre_views[i] }),
                            )
                        &&& match sh {
                            Shell::XdgV6(x) => post_shells.layers == pre_shells.layers
                                && post_shells.xdg_v6 == pre_shells.xdg_v6.insert(
                                x.shell_surface,
                                (XdgV6ShellSurface {
                                    geometry: rect,
                                    ..pre_shells.xdg_v6[x.shell_surface]
                                }),
                            ),
                            Shell::Layer(l) => post_shells.xdg_v6 == pre_shells.xdg_v6
                                && post_shells.layers == pre_shells.layers.insert(
                                l.shell_surface,
                                (LayerSurface {
                                    actual_size: rect.size,
                                    ..pre_shells.layers[l.shell_surface]
                                }),
                            ),
                        }
                    })
                } else {
                    post_views == pre_views && post_shells == pre_shells
                },
                None => post_views == pre_views && post_shells == pre_shells,
            }
        },
    }
}

/// The client-cursor bookkeeping invariant: the seat's flag is true iff
/// the image on screen was supplied by a client surface.
pub open spec fn client_cursor_consistent(seat: Seat, cursor: Cursor) -> bool {
    seat.has_client_cursor <==> cursor.image is ClientSurface
}

/// A cursor tick preserves the client-cursor invariant: pointer focus moves
/// and gestures never touch the image, and on a hit-test miss the flag and
/// the image are cleared together.
pub proof fn lemma_tick_keeps_client_cursor_consistent(
    pre: Seat,
    post: Seat,
    pre_cursor: Cursor,
    post_cursor: Cursor,
    pre_views: Seq<View>,
    post_views: Seq<View>,
    pre_shells: ShellsView,
    post_shells: ShellsView,
    time_msec: Option<u32>,
)
    requires
        cursor_update_transition(
            pre,
            post,
            pre_cursor,
            post_cursor,
            pre_views,
            post_views,
            pre_shells,
            post_shells,
            time_msec,
        ),
        client_cursor_consistent(pre, pre_cursor),
    ensures
        client_cursor_consistent(post, post_cursor),
{
}

/// The seat fields that focusing a view never touches.
pub open spec fn focus_frame(pre: Seat, post: Seat) -> bool {
    &&& post.seat == pre.seat
    &&& post.action == pre.action
    &&& post.has_client_cursor == pre.has_client_cursor
    &&& post.meta == pre.meta
    &&& post.drag_icons == pre.drag_icons
    &&& post.capabilities == pre.capabilities
    &&& post.keyboard == pre.keyboard
    &&& post.pointer_focus == pre.pointer_focus
}

/// The complete state change of successfully focusing `view` when it was not
/// focused before: the previous focus is deactivated, the target activated
/// and moved to the front of the view list with all other relative order
/// preserved, and, if a live keyboard is bound to the seat, keyboard focus
/// enters the target's surface carrying the keyboard's pressed keys and
/// modifiers.
pub open spec fn focus_transition(
    pre: Seat,
    post: Seat,
    view: View,
    pre_views: Seq<View>,
    post_views: Seq<View>,
    pre_shells: ShellsView,
    post_shells: ShellsView,
    keyboards: Map<Handle, Keyboard>,
    enter: Option<KeyboardEnter>,
) -> bool {
    &&& focus_frame(pre, post)
    &&& post.focused == Some(view.shell)
    &&& forall|i: int|
        is_first_index(pre_views, view.shell, i) ==> post_views == seq![pre_views[i]]
            + pre_views.remove(i)
    &&& post_shells.layers == pre_shells.layers
    &&& post_shells.xdg_v6 == view.shell.activate_post_m(
        match pre.focused {
            Some(f) => f.activate_post_m(pre_shells.xdg_v6, false),
            None => pre_shells.xdg_v6,
        },
        true,
    )
    &&& match pre.keyboard {
        Some(kb) => if keyboards.dom().contains(kb) {
            &&& post.keyboard_focus == Some(view.shell.surface_of(pre_shells))
            &&& enter matches Some(e) && e.surface == view.shell.surface_of(pre_shells)
                && e.keycodes@ == keyboards[kb].keycodes@ && e.modifiers == keyboards[kb].modifiers
        } else {
            post.keyboard_focus == pre.keyboard_focus && enter is None
        },
        None => post.keyboard_focus == pre.keyboard_focus && enter is None,
    }
}

/// A shell has only one first position in a view list.
proof fn lemma_first_index_unique(s: Seq<View>, shell: Shell, i: int, j: int)
    requires
        is_first_index(s, shell, i),
        is_first_index(s, shell, j),
    ensures
        i == j,
{
    if i < j {
        assert(s[i].shell == shell);
        assert(s[i].shell != shell);
    } else if j < i {
        assert(s[j].shell == shell);
        assert(s[j].shell != shell);
    }
}

/// The pointer has only one first hit in a view list.
proof fn lemma_first_hit_unique(s: Seq<View>, shells: ShellsView, cx: int, cy: int, i: int, j: int)
    requires
        first_hit_index(s, shells, cx, cy, i),
        first_hit_index(s, shells, cx, cy, j),
    ensures
        i == j,
{
    if i < j {
        assert(view_hit(s[i], shells, cx, cy));
        assert(!view_hit(s[i], shells, cx, cy));
    } else if j < i {
        assert(view_hit(s[j], shells, cx, cy));
        assert(!view_hit(s[j], shells, cx, cy));
    }
}

/// The first position of `shell` in the view list, scanned front to back.
pub fn find_first_view(views: &Vec<View>, shell: Shell) -> (r: Option<usize>)
    ensures
        match r {
            Some(i) => is_first_index(views@, shell, i as int),
            None => !contains_shell(views@, shell),
        },
{
    let n = views.len();
    let mut i: usize = 0;
    while i < n
        invariant
            n == views@.len(),
            i <= n,
            forall|j: int| 0 <= j < i ==> (#[trigger] views@[j]).shell != shell,
        decreases n - i,
    {
        if views[i].shell == shell {
            return Some(i);
        }
        i = i + 1;
    }
    None
}

/// An owned copy of a keycode list.
fn copy_keycodes(v: &Vec<u32>) -> (r: Vec<u32>)
    ensures
        r@ == v@,
{
    let mut r: Vec<u32> = Vec::new();
    let n = v.len();
    let mut i: usize = 0;
    while i < n
        invariant
            n == v@.len(),
            i <= n,
            r@ == v@.subrange(0, i as int),
        decreases n - i,
    {
        r.push(v[i]);
        proof {
            assert(r@ =~= v@.subrange(0, i + 1 as int));
        }
        i = i + 1;
    }
    proof {
        assert(r@ =~= v@);
    }
    r
}

impl Seat {
    /// A fresh seat with nothing focused, no gesture in progress and no
    /// capability advertised.
    pub fn new(seat: Handle) -> (r: Seat)
        ensures
            r.seat == seat,
            r.focused is None,
            r.action is None,
            !r.has_client_cursor,
            !r.meta,
            r.drag_icons@ == Seq::<DragIcon>::empty(),
            r.capabilities == (Capabilities { keyboard: false, pointer: false, touch: false }),
            r.keyboard is None,
            r.keyboard_focus is None,
            r.pointer_focus is None,
    {
        let r = Seat {
            seat,
            focused: None,
            action: None,
            has_client_cursor: false,
            meta: false,
            drag_icons: Vec::new(),
            capabilities: Capabilities::none(),
            keyboard: None,
            keyboard_focus: None,
            pointer_focus: None,
        };
        proof {
            assert(r.drag_icons@ =~= Seq::<DragIcon>::empty());
        }
        r
    }

    /// Whether clearing the focus succeeds: the focused view (if any) must
    /// still be deactivatable.
    pub open spec fn clear_focus_check(self, shells: ShellsView) -> Result<(), CompositorError> {
        match self.focused {
            Some(f) => f.activate_check(shells),
            None => Result::Ok(()),
        }
    }

    /// Deactivates the current focus, if any, and clears keyboard focus.
    /// On error nothing has changed.
    pub fn clear_focus(&mut self, shells: &mut Shells) -> (r: Result<(), CompositorError>)
        ensures
            r == old(self).clear_focus_check(old(shells)@),
            r is Err ==> *final(self) == *old(self) && *final(shells) == *old(shells),
            r is Ok ==> *final(self) == (Seat {
                focused: None,
                keyboard_focus: None,
                ..*old(self)
            }) && final(shells).layers == old(shells).layers && final(shells).xdg_v6@ == match old(self).focused {
                Some(f) => f.activate_post_m(old(shells).xdg_v6@, false),
                None => old(shells).xdg_v6@,
            },
    {
        let focused = self.focused;
        match focused {
            Some(f) => {
                match f.set_activated(shells, false) {
                    Ok(_) => {},
                    Err(e) => {
                        return Err(e);
                    },
                }
            },
            None => {},
        }
        self.focused = None;
        self.keyboard_focus = None;
        Ok(())
    }

    /// Whether focusing `view` succeeds from this state: the target must be
    /// tracked in the view list, still alive, activatable, and the previous
    /// focus (if any) deactivatable.  Focusing the already-focused view
    /// always succeeds (as a no-op).
    pub open spec fn focus_check(self, view: View, views: Seq<View>, shells: ShellsView) -> Result<
        (),
        CompositorError,
    > {
        if self.focused == Some(view.shell) {
            Result::Ok(())
        } else if !contains_shell(views, view.shell) {
            Result::Err(CompositorError::InvariantViolation)
        } else if !view.shell.alive(shells) {
            Result::Err(CompositorError::ResourceGone)
        } else {
            match view.shell.activate_check(shells) {
                Result::Ok(_) => match self.focused {
                    Some(f) => f.activate_check(shells),
                    None => Result::Ok(()),
                },
                Result::Err(e) => Result::Err(e),
            }
        }
    }

    /// Focuses `view`: deactivates the previous focus, activates the target,
    /// moves it to the front of `views` (keeping the relative order of all
    /// other entries) and, if a live keyboard is bound, issues the
    /// keyboard-enter notification that is returned to the caller.
    ///
    /// Focusing the already-focused view changes nothing at all.  On error
    /// nothing has changed.
    pub fn focus_view(
        &mut self,
        view: &View,
        views: &mut Vec<View>,
        shells: &mut Shells,
        keyboards: &Registry<Keyboard>,
    ) -> (r: Result<Option<KeyboardEnter>, CompositorError>)
        ensures
            r is Ok == (old(self).focus_check(*view, old(views)@, old(shells)@) is Ok),
            r matches Err(e) ==> old(self).focus_check(*view, old(views)@, old(shells)@) == Result::<
                (),
                CompositorError,
            >::Err(e),
            r is Err ==> *final(self) == *old(self) && *final(views) == *old(views)
                && *final(shells) == *old(shells),
            old(self).focused == Some(view.shell) ==> (r matches Ok(en) && en is None
                && *final(self) == *old(self) && *final(views) == *old(views)
                && *final(shells) == *old(shells)),
            old(self).focused != Some(view.shell) ==> (r matches Ok(en) ==> focus_transition(
                *old(self),
                *final(self),
                *view,
                old(views)@,
                final(views)@,
                old(shells)@,
                final(shells)@,
                keyboards@,
                en,
            )),
    {
        let already = match &self.focused {
            Some(f) => *f == view.shell,
            None => false,
        };
        if already {
            return Ok(None);
        }
        let idx = match find_first_view(views, view.shell) {
            Some(i) => i,
            None => {
                return Err(CompositorError::InvariantViolation);
            },
        };
        if !view.shell.is_alive(shells) {
            return Err(CompositorError::ResourceGone);
        }
        match view.shell.check_activate(shells) {
            Ok(_) => {},
            Err(e) => {
                return Err(e);
            },
        }
        let focused = self.focused;
        match focused {
            Some(f) => {
                match f.set_activated(shells, false) {
                    Ok(_) => {},
                    Err(e) => {
                        return Err(e);
                    },
                }
            },
            None => {},
        }
        match view.shell.set_activated(shells, true) {
            Ok(_) => {},
            Err(e) => {
                return Err(e);
            },
        }
        self.focused = Some(view.shell);
        let v = views.remove(idx);
        views.insert(0, v);
        proof {
            let s0 = old(views)@;
            assert forall|i: int| is_first_index(s0, view.shell, i) implies views@ == seq![s0[i]]
                + s0.remove(i) by {
                if i < idx as int {
                    assert(s0[i].shell == view.shell);
                    assert(s0[i].shell != view.shell);
                } else if i > idx as int {
                    assert(s0[idx as int].shell == view.shell);
                    assert(s0[idx as int].shell != view.shell);
                }
                assert(i == idx as int);
                assert(views@ =~= seq![s0[idx as int]] + s0.remove(idx as int));
            }
        }
        let keyboard = self.keyboard;
        match keyboard {
            Some(kb) => match keyboards.get(kb) {
                Some(rec) => {
                    let surface = match view.surface(shells) {
                        Ok(s) => s,
                        Err(e) => {
                            return Err(e);
                        },
                    };
                    self.keyboard_focus = Some(surface);
                    let enter = KeyboardEnter {
                        surface,
                        keycodes: copy_keycodes(&rec.keycodes),
                        modifiers: rec.modifiers,
                    };
                    Ok(Some(enter))
                },
                None => Ok(None),
            },
            None => Ok(None),
        }
    }

    /// Forwards a button event to the seat's pointer channel unmodified; the
    /// returned value is what the protocol layer must deliver.
    pub fn send_button(&self, event: &ButtonEvent) -> (r: ButtonEvent)
        ensures
            r == *event,
    {
        ButtonEvent { time_msec: event.time_msec, button: event.button, state: event.state }
    }

    /// Explicitly ends the pointer gesture in progress; called on
    /// pointer-button release, returning the seat to the idle action.
    pub fn end_pointer_grab(&mut self)
        ensures
            *final(self) == (Seat { action: None, ..*old(self) }),
    {
        self.action = None;
    }

    /// With `start` absent, arms a moving gesture whose grab offset is the
    /// surface-local position of the pointer inside `view`.  With `start`
    /// present, continues that gesture: the view's origin becomes the
    /// pointer position minus `start`.
    pub fn move_view(&mut self, cursor: &Cursor, view: &mut View, start: Option<Origin>)
        ensures
            match start {
                Some(s) => *final(view) == (View {
                    origin: pointer_delta(cursor.x as int, cursor.y as int, s),
                    ..*old(view)
                }) && *final(self) == *old(self),
                None => *final(self) == (Seat {
                    action: Some(
                        Action::Moving {
                            start: pointer_delta(cursor.x as int, cursor.y as int, old(view).origin),
                        },
                    ),
                    ..*old(self)
                }) && *final(view) == *old(view),
            },
    {
        let (lx, ly) = cursor.coords();
        match start {
            None => {
                let sx = crate::geometry::sat_sub_i32(lx, view.origin.x);
                let sy = crate::geometry::sat_sub_i32(ly, view.origin.y);
                self.action = Some(Action::Moving { start: Origin::new(sx, sy) });
            },
            Some(s) => {
                let px = crate::geometry::sat_sub_i32(lx, s.x);
                let py = crate::geometry::sat_sub_i32(ly, s.y);
                view.origin = Origin::new(px, py);
            },
        }
    }

    /// Hit-tests the view list in most-recently-focused order: the first
    /// view whose shell covers the pointer wins, and the surface-local
    /// coordinates of the hit are returned with its surface.  Views whose
    /// backing resource is gone never hit.
    pub fn view_at_pointer(views: &Vec<View>, cursor: &Cursor, shells: &Shells) -> (r: (
        Option<View>,
        Option<Handle>,
        i32,
        i32,
    ))
        ensures
            r.1 is Some == some_hit(views@, shells@, cursor.x as int, cursor.y as int),
            some_hit(views@, shells@, cursor.x as int, cursor.y as int) ==> exists|i: int|
                #[trigger] first_hit_index(views@, shells@, cursor.x as int, cursor.y as int, i),
            !some_hit(views@, shells@, cursor.x as int, cursor.y as int) ==> r == (
                None::<View>,
                None::<Handle>,
                0i32,
                0i32,
            ),
            forall|i: int|
                first_hit_index(views@, shells@, cursor.x as int, cursor.y as int, i) ==> r == (
                    Some(views@[i]),
                    Some(views@[i].shell.surface_of(shells@)),
                    (cursor.x - views@[i].origin.x) as i32,
                    (cursor.y - views@[i].origin.y) as i32,
                ),
    {
        let n = views.len();
        let mut i: usize = 0;
        while i < n
            invariant
                n == views@.len(),
                i <= n,
                forall|j: int|
                    0 <= j < i ==> !view_hit(
                        #[trigger] views@[j],
                        shells@,
                        cursor.x as int,
                        cursor.y as int,
                    ),
            decreases n - i,
        {
            let v = views[i];
            let sx = v.origin.x;
            let sy = v.origin.y;
            let local_x: i64 = cursor.x as i64 - sx as i64;
            let local_y: i64 = cursor.y as i64 - sy as i64;
            match v.shell.surface_at(shells, local_x, local_y) {
                Some((surface, hx, hy)) => {
                    proof {
                        let cx = cursor.x as int;
                        let cy = cursor.y as int;
                        assert(first_hit_index(views@, shells@, cx, cy, i as int));
                        assert forall|k: int| first_hit_index(views@, shells@, cx, cy, k) implies k
                            == i as int by {
                            lemma_first_hit_unique(views@, shells@, cx, cy, k, i as int);
                        }
                    }
                    return (Some(v), Some(surface), hx, hy);
                },
                None => {},
            }
            i = i + 1;
        }
        (None, None, 0, 0)
    }

    /// The per-tick cursor routine, run on every pointer motion or frame
    /// event.
    ///
    /// With a moving gesture armed, the focused view follows the pointer at
    /// the recorded grab offset.  With a resizing gesture armed, the focused
    /// view's rectangle is rebuilt from the current pointer position and
    /// emitted to its shell.  Otherwise the view list is hit-tested and
    /// pointer focus updated; on a miss, a client-supplied cursor image is
    /// replaced by the default one.
    ///
    /// A gesture whose focused view is gone from the list, or whose shell
    /// resource was destroyed, changes nothing this tick: the failure is
    /// contained rather than propagated out of the tick routine.
    pub fn update_cursor_position(
        &mut self,
        cursor: &mut Cursor,
        views: &mut Vec<View>,
        shells: &mut Shells,
        time_msec: Option<u32>,
    )
        ensures
            cursor_update_transition(
                *old(self),
                *final(self),
                *old(cursor),
                *final(cursor),
                old(views)@,
                final(views)@,
                old(shells)@,
                final(shells)@,
                time_msec,
            ),
    {
        let action = self.action;
        match action {
            Some(Action::Moving { start }) => {
                let focused = self.focused;
                if let Some(sh) = focused {
                    match find_first_view(views, sh) {
                        Some(i) => {
                            let mut v = views[i];
                            self.move_view(cursor, &mut v, Some(start));
                            views.set(i, v);
                            proof {
                                assert forall|k: int|
                                    is_first_index(old(views)@, sh, k) implies k == i as int by {
                                    lemma_first_index_unique(old(views)@, sh, k, i as int);
                                }
                            }
                        },
                        None => {},
                    }
                }
            },
            Some(Action::Resizing { start, offset, original_size, edges }) => {
                let focused = self.focused;
                if let Some(sh) = focused {
                    match find_first_view(views, sh) {
                        Some(i) => {
                            let area = compute_resize_rect(
                                cursor,
                                start,
                                offset,
                                original_size,
                                edges,
                            );
                            let mut v = views[i];
                            match v.move_resize(shells, area) {
                                Ok(_) => {
                                    views.set(i, v);
                                    proof {
                                        assert forall|k: int|
                                            is_first_index(old(views)@, sh, k) implies k
                                            == i as int by {
                                            lemma_first_index_unique(old(views)@, sh, k, i as int);
                                        }
                                    }
                                },
                                // The shell resource is gone: skip this tick.
                                Err(_) => {},
                            }
                        },
                        None => {},
                    }
                }
            },
            None => {
                let hit = Seat::view_at_pointer(views, cursor, shells);
                match hit.1 {
                    Some(surface) => {
                        self.pointer_focus = Some(
                            PointerFocus { surface, sx: hit.2, sy: hit.3, time_msec },
                        );
                    },
                    None => {
                        if self.has_client_cursor {
                            cursor.image = CursorImage::Default;
                            self.has_client_cursor = false;
                        }
                        self.pointer_focus = None;
                    },
                }
            },
        }
    }

    /// Whether `begin_resize` succeeds: the target's geometry must be
    /// readable and focusing it must succeed.
    pub open spec fn begin_resize_check(self, view: View, views: Seq<View>, shells: ShellsView) -> Result<
        (),
        CompositorError,
    > {
        match view.shell.geometry_spec(shells) {
            Result::<Area, CompositorError>::Ok(_) => self.focus_check(view, views, shells),
            Result::<Area, CompositorError>::Err(e) => Result::Err(e),
        }
    }

    /// Starts a resize gesture on `view`: the view is focused first, then
    /// the gesture records the view's origin, the surface-local pointer
    /// offset at grab time, the original size and the dragged edges.  On
    /// error nothing has changed.
    pub fn begin_resize(
        &mut self,
        cursor: &Cursor,
        view: &View,
        views: &mut Vec<View>,
        shells: &mut Shells,
        keyboards: &Registry<Keyboard>,
        edges: Edges,
    ) -> (r: Result<Option<KeyboardEnter>, CompositorError>)
        ensures
            r is Ok == (old(self).begin_resize_check(*view, old(views)@, old(shells)@) is Ok),
            r matches Err(e) ==> old(self).begin_resize_check(*view, old(views)@, old(shells)@)
                == Result::<(), CompositorError>::Err(e),
            r is Err ==> *final(self) == *old(self) && *final(views) == *old(views)
                && *final(shells) == *old(shells),
            r is Ok ==> (view.shell.geometry_spec(old(shells)@) matches Ok(a) && final(self).action
                == Some(
                Action::Resizing {
                    start: view.origin,
                    offset: pointer_delta(cursor.x as int, cursor.y as int, view.origin),
                    original_size: a.size,
                    edges,
                },
            )),
            (r is Ok && old(self).focused == Some(view.shell)) ==> (*final(views) == *old(views)
                && *final(shells) == *old(shells) && *final(self) == (Seat {
                action: final(self).action,
                ..*old(self)
            }) && (r matches Ok(en) && en is None)),
            old(self).focused != Some(view.shell) ==> (r matches Ok(en) ==> focus_transition(
                *old(self),
                (Seat { action: old(self).action, ..*final(self) }),
                *view,
                old(views)@,
                final(views)@,
                old(shells)@,
                final(shells)@,
                keyboards@,
                en,
            )),
    {
        let original_size = match view.get_size(shells) {
            Ok(s) => s,
            Err(e) => {
                return Err(e);
            },
        };
        let enter = match self.focus_view(view, views, shells, keyboards) {
            Ok(en) => en,
            Err(e) => {
                return Err(e);
            },
        };
        let (lx, ly) = cursor.coords();
        let off_x = crate::geometry::sat_sub_i32(lx, view.origin.x);
        let off_y = crate::geometry::sat_sub_i32(ly, view.origin.y);
        self.action = Some(
            Action::Resizing {
                start: view.origin,
                offset: Origin::new(off_x, off_y),
                original_size,
                edges,
            },
        );
        Ok(enter)
    }
}

/// The rectangle of the current resize tick, computed exactly in 64 bits
/// and clamped per stored coordinate.
fn compute_resize_rect(
    cursor: &Cursor,
    start: Origin,
    offset: Origin,
    original_size: Size,
    edges: Edges,
) -> (r: Area)
    ensures
        r == resize_rect(cursor.x as int, cursor.y as int, start, offset, original_size, edges),
{
    let dx: i64 = cursor.x as i64 - offset.x as i64 - start.x as i64;
    let dy: i64 = cursor.y as i64 - offset.y as i64 - start.y as i64;
    let y: i32 = if !edges.bottom && edges.top {
        crate::geometry::clamp_to_i32(start.y as i64 + dy)
    } else {
        start.y
    };
    let height: i32 = if edges.bottom {
        crate::geometry::clamp_to_i32(original_size.height as i64 + dy)
    } else if edges.top {
        crate::geometry::clamp_to_i32(original_size.height as i64 - dy)
    } else {
        original_size.height
    };
    let x: i32 = if edges.left {
        crate::geometry::clamp_to_i32(start.x as i64 + dx)
    } else {
        start.x
    };
    let width: i32 = if edges.left {
        crate::geometry::clamp_to_i32(original_size.width as i64 - dx)
    } else if edges.right {
        crate::geometry::clamp_to_i32(original_size.width as i64 + dx)
    } else {
        original_size.width
    };
    Area { origin: Origin { x, y }, size: Size { width, height } }
}

/// The first position of `handle` among the tracked drag icons.
fn find_drag_icon(icons: &Vec<DragIcon>, handle: Handle) -> (r: Option<usize>)
    ensures
        match r {
            Some(i) => is_first_drag_index(icons@, handle, i as int),
            None => !contains_drag_icon(icons@, handle),
        },
{
    let n = icons.len();
    let mut i: usize = 0;
    while i < n
        invariant
            n == icons@.len(),
            i <= n,
            forall|j: int| 0 <= j < i ==> (#[trigger] icons@[j]).handle != handle,
        decreases n - i,
    {
        if icons[i].handle == handle {
            return Some(i);
        }
        i = i + 1;
    }
    None
}

impl SeatManager {
    pub fn new() -> (r: SeatManager) {
        SeatManager
    }

    /// A client supplied its own cursor image: show it and remember that the
    /// image on screen is now client-owned.  An event without a surface
    /// changes nothing.
    pub fn cursor_set(&self, seat: &mut Seat, cursor: &mut Cursor, event: &SetCursorEvent)
        ensures
            match event.surface {
                Some(surface) => *final(cursor) == (Cursor {
                    image: CursorImage::ClientSurface {
                        surface,
                        hotspot_x: event.hotspot_x,
                        hotspot_y: event.hotspot_y,
                    },
                    ..*old(cursor)
                }) && *final(seat) == (Seat { has_client_cursor: true, ..*old(seat) }),
                None => *final(cursor) == *old(cursor) && *final(seat) == *old(seat),
            },
    {
        if let Some(surface) = event.surface {
            cursor.set_surface(surface, event.hotspot_x, event.hotspot_y);
            seat.has_client_cursor = true;
        }
    }

    /// A drag started: track its icon.  The set never holds two entries for
    /// the same underlying resource, so a second start for a tracked icon
    /// changes nothing.
    pub fn new_drag_icon(&self, seat: &mut Seat, drag_icon: Handle)
        ensures
            same_but_drag_icons(*old(seat), *final(seat)),
            contains_drag_icon(old(seat).drag_icons@, drag_icon) ==> final(seat).drag_icons@ == old(seat).drag_icons@,
            !contains_drag_icon(old(seat).drag_icons@, drag_icon) ==> final(seat).drag_icons@
                == old(seat).drag_icons@.push(DragIcon { handle: drag_icon }),
            no_duplicate_drag_icons(old(seat).drag_icons@) ==> no_duplicate_drag_icons(
                final(seat).drag_icons@,
            ),
    {
        match find_drag_icon(&seat.drag_icons, drag_icon) {
            Some(_) => {},
            None => {
                seat.drag_icons.push(DragIcon { handle: drag_icon });
            },
        }
    }

    /// A drag icon was destroyed: stop tracking it.
    pub fn drag_icon_destroyed(&self, seat: &mut Seat, drag_icon: Handle)
        ensures
            same_but_drag_icons(*old(seat), *final(seat)),
            !contains_drag_icon(old(seat).drag_icons@, drag_icon) ==> final(seat).drag_icons@
                == old(seat).drag_icons@,
            forall|i: int|
                is_first_drag_index(old(seat).drag_icons@, drag_icon, i) ==> final(seat).drag_icons@ == old(seat).drag_icons@.remove(i),
            no_duplicate_drag_icons(old(seat).drag_icons@) ==> no_duplicate_drag_icons(
                final(seat).drag_icons@,
            ),
    {
        match find_drag_icon(&seat.drag_icons, drag_icon) {
            Some(i) => {
                seat.drag_icons.remove(i);
                proof {
                    let s0 = old(seat).drag_icons@;
                    assert forall|k: int|
                        is_first_drag_index(s0, drag_icon, k) implies seat.drag_icons@ == s0.remove(
                        k,
                    ) by {
                        if k < i as int {
                            assert(s0[k].handle == drag_icon);
                            assert(s0[k].handle != drag_icon);
                        } else if k > i as int {
                            assert(s0[i as int].handle == drag_icon);
                            assert(s0[i as int].handle != drag_icon);
                        }
                    }
                    if no_duplicate_drag_icons(s0) {
                        assert forall|a: int, b: int|
                            0 <= a < b < seat.drag_icons@.len() implies (#[trigger] seat.drag_icons@[a]).handle
                            != (#[trigger] seat.drag_icons@[b]).handle by {
                            let a0 = if a < i as int {
                                a
                            } else {
                                a + 1
                            };
                            let b0 = if b < i as int {
                                b
                            } else {
                                b + 1
                            };
                            assert(seat.drag_icons@[a] == s0[a0]);
                            assert(seat.drag_icons@[b] == s0[b0]);
                        }
                    }
                }
            },
            None => {},
        }
    }
}

} // verus!

