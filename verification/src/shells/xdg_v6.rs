//! The xdg-shell (v6) protocol variant: toplevel application windows.

use vstd::prelude::*;
use vstd::view::View as _;

use crate::error::CompositorError;
use crate::geometry::{Area, Origin};
use crate::registry::Handle;
use crate::seat::{
    contains_shell, cursor_update_transition, enter_matches, find_first_view, is_first_index,
    keyboard_focus_after_focus, pointer_delta, Action, Keyboard, KeyboardEnter, Seat,
};
use crate::server::{shell_event_frame, Server};
use crate::shells::{Shell, ShellsView};
use crate::view::View;

verus! {

/// Shell-side handle state for one xdg v6 surface, as carried inside a
/// [`crate::shells::Shell`] value.
#[derive(Clone, Copy, Debug, PartialEq, Eq, Structural)]
pub struct XdgV6 {
    pub shell_surface: Handle,
}

impl XdgV6 {
    /// A handler not yet bound to a shell surface.
    pub fn new() -> (r: XdgV6)
        ensures
            r.shell_surface == Handle::null_spec(),
    {
        XdgV6 { shell_surface: Handle::null() }
    }

    /// A handler bound to the given shell surface.
    pub fn from_handle(shell_surface: Handle) -> (r: XdgV6)
        ensures
            r == (XdgV6 { shell_surface }),
    {
        XdgV6 { shell_surface }
    }
}

/// The protocol role an xdg v6 surface currently has.
#[derive(Clone, Copy, Debug, PartialEq, Eq, Structural)]
pub enum XdgV6ShellState {
    /// A normal, user-facing application window.  `activated` is the
    /// protocol-level focus highlight.
    TopLevel { activated: bool },
    /// A transient child surface (menu, tooltip); it has no activation
    /// concept and no window geometry of its own.
    Popup,
}

/// The tracked state of one live xdg v6 shell surface.
#[derive(Clone, Copy, Debug, PartialEq, Eq, Structural)]
pub struct XdgV6ShellSurface {
    /// The underlying display surface.
    pub surface: Handle,
    /// The current window rectangle.
    pub geometry: Area,
    /// The protocol role, including the activation flag for toplevels.
    pub state: XdgV6ShellState,
}

impl XdgV6ShellSurface {
    /// A fresh toplevel record, not yet activated.
    pub fn new_toplevel(surface: Handle, geometry: Area) -> (r: XdgV6ShellSurface)
        ensures
            r == (XdgV6ShellSurface {
                surface,
                geometry,
                state: XdgV6ShellState::TopLevel { activated: false },
            }),
    {
        XdgV6ShellSurface {
            surface,
            geometry,
            state: XdgV6ShellState::TopLevel { activated: false },
        }
    }

    /// A fresh popup record.
    pub fn new_popup(surface: Handle, geometry: Area) -> (r: XdgV6ShellSurface)
        ensures
            r == (XdgV6ShellSurface { surface, geometry, state: XdgV6ShellState::Popup }),
    {
        XdgV6ShellSurface { surface, geometry, state: XdgV6ShellState::Popup }
    }
}

/// Whether a map request for `shell_surface` succeeds: the surface must
/// still exist; when a view is created (toplevel surface, focused output
/// present), the surface must not be tracked already and the previous focus
/// must be deactivatable.
pub open spec fn map_check(server: Server, shell_surface: Handle) -> Result<(), CompositorError> {
    if !server.shells@.xdg_v6.dom().contains(shell_surface) {
        Result::Err(CompositorError::ResourceGone)
    } else {
        let sh = Shell::XdgV6(XdgV6 { shell_surface });
        if server.shells@.xdg_v6[shell_surface].state is TopLevel && server.focused_output
            is Some {
            if contains_shell(server.views@, sh) {
                Result::Err(CompositorError::InvariantViolation)
            } else if server.seat.focused == Some(sh) {
                Result::Ok(())
            } else {
                match server.seat.focused {
                    Some(f) => f.activate_check(server.shells@),
                    None => Result::Ok(()),
                }
            }
        } else {
            Result::Ok(())
        }
    }
}

/// The outcome of an unmap request once the matching view (if any) has been
/// taken out of the list, leaving `mid_views`: if views remain, the new
/// front of the list is focused (a no-op when focus was not on the removed
/// view, since the front is then already focused); otherwise focus is
/// cleared.  A cursor tick then re-runs hit-testing.  If the focus change
/// fails, the removal stands but nothing else changed.
pub open spec fn unmap_outcome(
    pre_seat: Seat,
    post_seat: Seat,
    pre_cursor: crate::cursor::Cursor,
    post_cursor: crate::cursor::Cursor,
    mid_views: Seq<View>,
    post_views: Seq<View>,
    pre_shells: ShellsView,
    post_shells: ShellsView,
    keyboards: Map<Handle, Keyboard>,
    r: Result<Option<KeyboardEnter>, CompositorError>,
) -> bool {
    if mid_views.len() > 0 {
        let target = mid_views[0];
        if pre_seat.focused == Some(target.shell) {
            &&& r matches Ok(en) && en is None
            &&& cursor_update_transition(
                pre_seat,
                post_seat,
                pre_cursor,
                post_cursor,
                mid_views,
                post_views,
                pre_shells,
                post_shells,
                None,
            )
        } else {
            match pre_seat.focus_check(target, mid_views, pre_shells) {
                Result::<(), CompositorError>::Ok(_) => ({
                    let deact = match pre_seat.focused {
                        Some(f) => f.activate_post_m(pre_shells.xdg_v6, false),
                        None => pre_shells.xdg_v6,
                    };
                    let mid_shells = ShellsView {
                        xdg_v6: target.shell.activate_post_m(deact, true),
                        layers: pre_shells.layers,
                    };
                    let mid_seat = (Seat {
                        focused: Some(target.shell),
                        keyboard_focus: keyboard_focus_after_focus(
                            pre_seat.keyboard,
                            pre_seat.keyboard_focus,
                            keyboards,
                            target.shell.surface_of(pre_shells),
                        ),
                        ..pre_seat
                    });
                    &&& r matches Ok(en) && enter_matches(
                        pre_seat.keyboard,
                        keyboards,
                        target.shell.surface_of(pre_shells),
                        en,
                    )
                    &&& cursor_update_transition(
                        mid_seat,
                        post_seat,
                        pre_cursor,
                        post_cursor,
                        mid_views,
                        post_views,
                        mid_shells,
                        post_shells,
                        None,
                    )
                }),
                Result::<(), CompositorError>::Err(e) => {
                    &&& r == Result::<Option<KeyboardEnter>, CompositorError>::Err(e)
                    &&& post_seat == pre_seat
                    &&& post_cursor == pre_cursor
                    &&& post_views == mid_views
                    &&& post_shells == pre_shells
                },
            }
        }
    } else {
        match pre_seat.clear_focus_check(pre_shells) {
            Result::<(), CompositorError>::Ok(_) => ({
                let mid_seat = (Seat { focused: None, keyboard_focus: None, ..pre_seat });
                let mid_shells = ShellsView {
                    xdg_v6: match pre_seat.focused {
                        Some(f) => f.activate_post_m(pre_shells.xdg_v6, false),
                        None => pre_shells.xdg_v6,
                    },
                    layers: pre_shells.layers,
                };
                &&& r matches Ok(en) && en is None
                &&& cursor_update_transition(
                    mid_seat,
                    post_seat,
                    pre_cursor,
                    post_cursor,
                    mid_views,
                    post_views,
                    mid_shells,
                    post_shells,
                    None,
                )
            }),
            Result::<(), CompositorError>::Err(e) => {
                &&& r == Result::<Option<KeyboardEnter>, CompositorError>::Err(e)
                &&& post_seat == pre_seat
                &&& post_cursor == pre_cursor
                &&& post_views == mid_views
                &&& post_shells == pre_shells
            },
        }
    }
}

/// Unmapping the sole remaining view clears focus (keyboard focus
/// included) and leaves the view list empty.
pub proof fn lemma_unmap_sole_view_clears_focus(
    pre_seat: Seat,
    post_seat: Seat,
    pre_cursor: crate::cursor::Cursor,
    post_cursor: crate::cursor::Cursor,
    post_views: Seq<View>,
    pre_shells: ShellsView,
    post_shells: ShellsView,
    keyboards: Map<Handle, Keyboard>,
    r: Result<Option<KeyboardEnter>, CompositorError>,
)
    requires
        unmap_outcome(
            pre_seat,
            post_seat,
            pre_cursor,
            post_cursor,
            Seq::<View>::empty(),
            post_views,
            pre_shells,
            post_shells,
            keyboards,
            r,
        ),
        r is Ok,
    ensures
        post_seat.focused is None,
        post_seat.keyboard_focus is None,
        post_views == Seq::<View>::empty(),
{
}

/// Unmapping a view while others remain re-focuses the new front of the
/// list only if focus was on the removed view: when the focus was
/// elsewhere, the front is that focused view already and the seat's focus
/// is unchanged; when it was on the removed view, focus moves to the new
/// front.
pub proof fn lemma_unmap_refocuses_front(
    pre_seat: Seat,
    post_seat: Seat,
    pre_cursor: crate::cursor::Cursor,
    post_cursor: crate::cursor::Cursor,
    mid_views: Seq<View>,
    post_views: Seq<View>,
    pre_shells: ShellsView,
    post_shells: ShellsView,
    keyboards: Map<Handle, Keyboard>,
    r: Result<Option<KeyboardEnter>, CompositorError>,
)
    requires
        unmap_outcome(
            pre_seat,
            post_seat,
            pre_cursor,
            post_cursor,
            mid_views,
            post_views,
            pre_shells,
            post_shells,
            keyboards,
            r,
        ),
        r is Ok,
        mid_views.len() > 0,
    ensures
        pre_seat.focused == Some(mid_views[0].shell) ==> post_seat.focused == pre_seat.focused,
        pre_seat.focused != Some(mid_views[0].shell) ==> post_seat.focused == Some(
            mid_views[0].shell,
        ),
{
}

impl XdgV6 {
    /// A client asked to start an interactive move.  A moving gesture is
    /// armed only if the requesting shell currently backs the seat's focused
    /// view; the grab offset is the surface-local pointer position inside
    /// that view.
    pub fn move_request(&self, server: &mut Server, shell_surface: Handle)
        ensures
            final(server).cursor == old(server).cursor,
            final(server).views == old(server).views,
            final(server).shells.xdg_v6 == old(server).shells.xdg_v6,
            final(server).shells.layers == old(server).shells.layers,
            shell_event_frame(*old(server), *final(server)),
            ({
                let sh = Shell::XdgV6(XdgV6 { shell_surface });
                if old(server).seat.focused == Some(sh) && contains_shell(old(server).views@, sh) {
                    forall|i: int|
                        is_first_index(old(server).views@, sh, i) ==> final(server).seat == (Seat {
                            action: Some(
                                Action::Moving {
                                    start: pointer_delta(
                                        old(server).cursor.x as int,
                                        old(server).cursor.y as int,
                                        old(server).views@[i].origin,
                                    ),
                                },
                            ),
                            ..old(server).seat
                        })
                } else {
                    final(server).seat == old(server).seat
                }
            }),
    {
        let sh = Shell::from_xdg_v6(shell_surface);
        let focused = server.seat.focused;
        let is_focused = match focused {
            Some(f) => f == sh,
            None => false,
        };
        if is_focused {
            match find_first_view(&server.views, sh) {
                Some(i) => {
                    let mut v = server.views[i];
                    server.seat.move_view(&server.cursor, &mut v, None);
                    proof {
                        assert forall|k: int|
                            is_first_index(old(server).views@, sh, k) implies k == i as int by {
                            if k < i as int {
                                assert(old(server).views@[k].shell == sh);
                                assert(old(server).views@[k].shell != sh);
                            } else if k > i as int {
                                assert(old(server).views@[i as int].shell == sh);
                                assert(old(server).views@[i as int].shell != sh);
                            }
                        }
                    }
                },
                None => {},
            }
        }
    }

    /// A map request: if the surface is a toplevel and a focused output
    /// exists, a view bound to that output is created, appended and focused;
    /// afterwards a cursor tick re-runs hit-testing since the window set
    /// changed.  The keyboard-enter notification of the focus change, if
    /// any, is handed back for delivery.  On error nothing has changed.
    pub fn map_request(&self, server: &mut Server, shell_surface: Handle) -> (r: Result<
        Option<KeyboardEnter>,
        CompositorError,
    >)
        ensures
            r is Ok == (map_check(*old(server), shell_surface) is Ok),
            r matches Err(e) ==> map_check(*old(server), shell_surface) == Result::<
                (),
                CompositorError,
            >::Err(e),
            r is Err ==> final(server).seat == old(server).seat && final(server).cursor == old(
                server,
            ).cursor && final(server).views@ == old(server).views@ && final(server).shells == old(
                server,
            ).shells,
            shell_event_frame(*old(server), *final(server)),
            r matches Ok(en) ==> ({
                let sh = Shell::XdgV6(XdgV6 { shell_surface });
                let pre = *old(server);
                if pre.shells@.xdg_v6.dom().contains(shell_surface)
                    && pre.shells@.xdg_v6[shell_surface].state is TopLevel && pre.focused_output
                    is Some {
                    let view = (View {
                        shell: sh,
                        output: pre.focused_output->Some_0,
                        origin: Origin { x: 0, y: 0 },
                    });
                    if pre.seat.focused == Some(sh) {
                        &&& en is None
                        &&& cursor_update_transition(
                            pre.seat,
                            final(server).seat,
                            pre.cursor,
                            final(server).cursor,
                            pre.views@.push(view),
                            final(server).views@,
                            pre.shells@,
                            final(server).shells@,
                            None,
                        )
                    } else {
                        let mid_views = seq![view] + pre.views@;
                        let deact = match pre.seat.focused {
                            Some(f) => f.activate_post_m(pre.shells@.xdg_v6, false),
                            None => pre.shells@.xdg_v6,
                        };
                        let mid_shells = ShellsView {
                            xdg_v6: sh.activate_post_m(deact, true),
                            layers: pre.shells@.layers,
                        };
                        let mid_seat = (Seat {
                            focused: Some(sh),
                            keyboard_focus: keyboard_focus_after_focus(
                                pre.seat.keyboard,
                                pre.seat.keyboard_focus,
                                pre.keyboard_registry@,
                                sh.surface_of(pre.shells@),
                            ),
                            ..pre.seat
                        });
                        &&& enter_matches(
                            pre.seat.keyboard,
                            pre.keyboard_registry@,
                            sh.surface_of(pre.shells@),
                            en,
                        )
                        &&& cursor_update_transition(
                            mid_seat,
                            final(server).seat,
                            pre.cursor,
                            final(server).cursor,
                            mid_views,
                            final(server).views@,
                            mid_shells,
                            final(server).shells@,
                            None,
                        )
                    }
                } else {
                    &&& en is None
                    &&& cursor_update_transition(
                        pre.seat,
                        final(server).seat,
                        pre.cursor,
                        final(server).cursor,
                        pre.views@,
                        final(server).views@,
                        pre.shells@,
                        final(server).shells@,
                        None,
                    )
                }
            }),
    {
        let is_toplevel = match server.shells.xdg_v6.get(shell_surface) {
            Some(rec) => match rec.state {
                XdgV6ShellState::TopLevel { .. } => true,
                XdgV6ShellState::Popup => false,
            },
            None => {
                return Err(CompositorError::ResourceGone);
            },
        };
        let focused_output = server.focused_output;
        let mut enter: Option<KeyboardEnter> = None;
        if is_toplevel && focused_output.is_some() {
            let output = focused_output.unwrap();
            let sh = Shell::from_xdg_v6(shell_surface);
            match find_first_view(&server.views, sh) {
                Some(_) => {
                    return Err(CompositorError::InvariantViolation);
                },
                None => {},
            }
            let view = View::new(sh, output);
            server.views.push(view);
            proof {
                let pushed = old(server).views@.push(view);
                let n = old(server).views@.len() as int;
                assert(pushed[n].shell == sh);
                assert forall|j: int| 0 <= j < n implies (#[trigger] pushed[j]).shell != sh by {
                    assert(pushed[j] == old(server).views@[j]);
                }
                assert(is_first_index(pushed, sh, n));
                assert(pushed.remove(n) =~= old(server).views@);
            }
            match server.seat.focus_view(
                &view,
                &mut server.views,
                &mut server.shells,
                &server.keyboard_registry,
            ) {
                Ok(en) => {
                    enter = en;
                },
                Err(e) => {
                    server.views.pop();
                    proof {
                        assert(server.views@ =~= old(server).views@);
                    }
                    return Err(e);
                },
            }
        }
        server.seat.update_cursor_position(
            &mut server.cursor,
            &mut server.views,
            &mut server.shells,
            None,
        );
        Ok(enter)
    }

    /// An unmap request: the matching view (if any) leaves the list; if
    /// views remain the new front of the list is focused — which changes
    /// nothing when focus was not on the removed view, because the front is
    /// then already focused — otherwise focus is cleared.  A cursor tick
    /// then re-runs hit-testing against the remaining views.
    pub fn unmap_request(&self, server: &mut Server, shell_surface: Handle) -> (r: Result<
        Option<KeyboardEnter>,
        CompositorError,
    >)
        ensures
            shell_event_frame(*old(server), *final(server)),
            forall|i: int|
                is_first_index(old(server).views@, Shell::XdgV6(XdgV6 { shell_surface }), i)
                    ==> unmap_outcome(
                    old(server).seat,
                    final(server).seat,
                    old(server).cursor,
                    final(server).cursor,
                    old(server).views@.remove(i),
                    final(server).views@,
                    old(server).shells@,
                    final(server).shells@,
                    old(server).keyboard_registry@,
                    r,
                ),
            !contains_shell(old(server).views@, Shell::XdgV6(XdgV6 { shell_surface }))
                ==> unmap_outcome(
                old(server).seat,
                final(server).seat,
                old(server).cursor,
                final(server).cursor,
                old(server).views@,
                final(server).views@,
                old(server).shells@,
                final(server).shells@,
                old(server).keyboard_registry@,
                r,
            ),
    {
        let sh = Shell::from_xdg_v6(shell_surface);
        match find_first_view(&server.views, sh) {
            Some(i) => {
                server.views.remove(i);
                proof {
                    assert forall|k: int|
                        is_first_index(old(server).views@, sh, k) implies k == i as int by {
                        if k < i as int {
                            assert(old(server).views@[k].shell == sh);
                            assert(old(server).views@[k].shell != sh);
                        } else if k > i as int {
                            assert(old(server).views@[i as int].shell == sh);
                            assert(old(server).views@[i as int].shell != sh);
                        }
                    }
                }
            },
            None => {},
        }
        let ghost mid_views = server.views@;
        let mut enter: Option<KeyboardEnter> = None;
        if server.views.len() > 0 {
            let target = server.views[0];
            match server.seat.focus_view(
                &target,
                &mut server.views,
                &mut server.shells,
                &server.keyboard_registry,
            ) {
                Ok(en) => {
                    enter = en;
                    proof {
                        assert(is_first_index(mid_views, target.shell, 0));
                        assert(seq![mid_views[0]] + mid_views.remove(0) =~= mid_views);
                    }
                },
                Err(e) => {
                    return Err(e);
                },
            }
        } else {
            match server.seat.clear_focus(&mut server.shells) {
                Ok(_) => {},
                Err(e) => {
                    return Err(e);
                },
            }
        }
        server.seat.update_cursor_position(
            &mut server.cursor,
            &mut server.views,
            &mut server.shells,
            None,
        );
        Ok(enter)
    }
}

/// Accepts new xdg v6 surfaces and hands back a handler for each.
pub struct XdgV6ShellManager;

impl XdgV6ShellManager {
    /// A new xdg v6 surface appeared: the returned handler is bound to it.
    pub fn new_surface(&self, shell_surface: Handle) -> (r: XdgV6)
        ensures
            r == (XdgV6 { shell_surface }),
    {
        XdgV6::from_handle(shell_surface)
    }
}

} // verus!
