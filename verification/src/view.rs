//! Per-window runtime state.

use vstd::prelude::*;
use vstd::view::View as _;

use crate::error::CompositorError;
use crate::geometry::{Area, Origin, Size};
use crate::registry::Handle;
use crate::shells::{Shell, Shells};
use crate::shells::xdg_v6::XdgV6ShellSurface;
use crate::shells::layer_shell::LayerSurface;

verus! {

/// A mapped window: which shell backs it, which output it is placed on, and
/// its current position in layout coordinates.
#[derive(Clone, Copy, Debug, PartialEq, Eq, Structural)]
pub struct View {
    pub shell: Shell,
    pub output: Handle,
    pub origin: Origin,
}

impl View {
    /// A freshly mapped window at the layout origin.
    pub fn new(shell: Shell, output: Handle) -> (r: View)
        ensures
            r == (View { shell, output, origin: Origin { x: 0, y: 0 } }),
    {
        View { shell, output, origin: Origin::new(0, 0) }
    }

    /// The display surface behind the window's shell.
    pub fn surface(&self, shells: &Shells) -> (r: Result<Handle, CompositorError>)
        ensures
            r == if self.shell.alive(shells@) {
                Result::<Handle, CompositorError>::Ok(self.shell.surface_of(shells@))
            } else {
                Result::<Handle, CompositorError>::Err(CompositorError::ResourceGone)
            },
    {
        self.shell.surface(shells)
    }

    /// Marks the window focused or unfocused at the protocol level.
    pub fn activate(&self, shells: &mut Shells, activated: bool) -> (r: Result<
        (),
        CompositorError,
    >)
        ensures
            r == self.shell.activate_check(old(shells)@),
            final(shells).layers == old(shells).layers,
            r is Ok ==> final(shells).xdg_v6@ == self.shell.activate_post_m(
                old(shells).xdg_v6@,
                activated,
            ),
            r is Err ==> *final(shells) == *old(shells),
    {
        self.shell.set_activated(shells, activated)
    }

    /// The window's current size, from the shell geometry.
    pub fn get_size(&self, shells: &Shells) -> (r: Result<Size, CompositorError>)
        ensures
            r == match self.shell.geometry_spec(shells@) {
                Result::<Area, CompositorError>::Ok(a) => Result::<
                    Size,
                    CompositorError,
                >::Ok(a.size),
                Result::<Area, CompositorError>::Err(e) => Result::<Size, CompositorError>::Err(e),
            },
    {
        match self.shell.geometry(shells) {
            Ok(a) => Ok(a.size),
            Err(e) => Err(e),
        }
    }

    /// Applies a new rectangle: the window moves to the rectangle's origin
    /// and its shell is told the new geometry in one move-resize operation.
    pub fn move_resize(&mut self, shells: &mut Shells, area: Area) -> (r: Result<
        (),
        CompositorError,
    >)
        ensures
            r == old(self).shell.resize_check(old(shells)@),
            r is Err ==> *final(self) == *old(self) && *final(shells) == *old(shells),
            r is Ok ==> *final(self) == (View { origin: area.origin, ..*old(self) })
                && match old(self).shell {
                Shell::XdgV6(x) => final(shells).layers == old(shells).layers
                    && final(shells).xdg_v6@ == old(shells).xdg_v6@.insert(
                    x.shell_surface,
                    (XdgV6ShellSurface { geometry: area, ..old(shells).xdg_v6@[x.shell_surface] }),
                ),
                Shell::Layer(l) => final(shells).xdg_v6 == old(shells).xdg_v6
                    && final(shells).layers@ == old(shells).layers@.insert(
                    l.shell_surface,
                    (LayerSurface { actual_size: area.size, ..old(shells).layers@[l.shell_surface] }),
                ),
            },
    {
        match self.shell.move_resize(shells, area) {
            Ok(_) => {
                self.origin = area.origin;
                Ok(())
            },
            Err(e) => Err(e),
        }
    }

    /// Enumerates the window's surfaces with their offsets relative to the
    /// window: a finite, restartable traversal for damage bookkeeping.  Only
    /// the main surface is tracked by this core.
    pub fn for_each_surface(&self, shells: &Shells) -> (r: Result<
        Vec<(Handle, i32, i32)>,
        CompositorError,
    >)
        ensures
            match r {
                Result::Ok(v) => self.shell.alive(shells@) && v@ == seq![
                    (self.shell.surface_of(shells@), 0i32, 0i32),
                ],
                Result::Err(e) => !self.shell.alive(shells@) && e
                    == CompositorError::ResourceGone,
            },
    {
        match self.shell.surface(shells) {
            Ok(surface) => {
                let mut v: Vec<(Handle, i32, i32)> = Vec::new();
                v.push((surface, 0, 0));
                proof {
                    assert(v@ =~= seq![(self.shell.surface_of(shells@), 0i32, 0i32)]);
                }
                Ok(v)
            },
            Err(e) => Err(e),
        }
    }
}

} // verus!
