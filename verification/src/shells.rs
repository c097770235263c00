//! The shell abstraction: a closed tagged union over the surface protocol
//! variants, with uniform surface and geometry access.

pub mod layer_shell;
pub mod xdg_v6;

use vstd::prelude::*;

use crate::error::CompositorError;
use crate::geometry::{Area, Origin, Size};
use crate::registry::{Handle, Registry};
use crate::shells::layer_shell::{LayerShell, LayerSurface};
use crate::shells::xdg_v6::{XdgV6, XdgV6ShellState, XdgV6ShellSurface};

verus! {

/// The resource tables for all live shell surfaces, one per protocol
/// variant.
pub struct Shells {
    pub xdg_v6: Registry<XdgV6ShellSurface>,
    pub layers: Registry<LayerSurface>,
}

/// The abstract value of the shell tables: the live entries of both
/// protocol variants.
pub struct ShellsView {
    pub xdg_v6: Map<Handle, XdgV6ShellSurface>,
    pub layers: Map<Handle, LayerSurface>,
}

impl View for Shells {
    type V = ShellsView;

    open spec fn view(&self) -> ShellsView {
        ShellsView { xdg_v6: self.xdg_v6@, layers: self.layers@ }
    }
}

impl Shells {
    /// Empty tables: no shell surface exists yet.
    pub fn new() -> (r: Shells)
        ensures
            r.xdg_v6@ == Map::<Handle, XdgV6ShellSurface>::empty(),
            r.layers@ == Map::<Handle, LayerSurface>::empty(),
    {
        Shells { xdg_v6: Registry::new(), layers: Registry::new() }
    }
}

/// A protocol-specific surface handle: one case per supported protocol.
#[derive(Clone, Copy, Debug, PartialEq, Eq, Structural)]
pub enum Shell {
    XdgV6(XdgV6),
    Layer(LayerShell),
}

impl Shell {
    /// A shell over an xdg v6 surface handle.
    pub fn from_xdg_v6(shell_surface: Handle) -> (r: Shell)
        ensures
            r == Shell::XdgV6(XdgV6 { shell_surface }),
    {
        Shell::XdgV6(XdgV6::from_handle(shell_surface))
    }

    /// A shell over a layer surface handle.
    pub fn from_layer(shell_surface: Handle) -> (r: Shell)
        ensures
            r == Shell::Layer(LayerShell { shell_surface, mapped: false }),
    {
        Shell::Layer(LayerShell::from_handle(shell_surface))
    }

    /// Is the backing shell surface still alive?
    pub open spec fn alive(self, shells: ShellsView) -> bool {
        match self {
            Shell::XdgV6(x) => shells.xdg_v6.dom().contains(x.shell_surface),
            Shell::Layer(l) => shells.layers.dom().contains(l.shell_surface),
        }
    }

    /// The underlying display surface, for a live shell.
    pub open spec fn surface_of(self, shells: ShellsView) -> Handle
        recommends
            self.alive(shells),
    {
        match self {
            Shell::XdgV6(x) => shells.xdg_v6[x.shell_surface].surface,
            Shell::Layer(l) => shells.layers[l.shell_surface].surface,
        }
    }

    /// The committed size of a live shell's surface.
    pub open spec fn size_of(self, shells: ShellsView) -> Size
        recommends
            self.alive(shells),
    {
        match self {
            Shell::XdgV6(x) => shells.xdg_v6[x.shell_surface].geometry.size,
            Shell::Layer(l) => shells.layers[l.shell_surface].actual_size,
        }
    }

    /// Gets the display surface behind the shell, failing once the backing
    /// resource is gone.
    pub fn surface(&self, shells: &Shells) -> (r: Result<Handle, CompositorError>)
        ensures
            r == if self.alive(shells@) {
                Result::<Handle, CompositorError>::Ok(self.surface_of(shells@))
            } else {
                Result::<Handle, CompositorError>::Err(CompositorError::ResourceGone)
            },
    {
        match self {
            Shell::XdgV6(x) => match shells.xdg_v6.get(x.shell_surface) {
                Some(rec) => Ok(rec.surface),
                None => Err(CompositorError::ResourceGone),
            },
            Shell::Layer(l) => match shells.layers.get(l.shell_surface) {
                Some(rec) => Ok(rec.surface),
                None => Err(CompositorError::ResourceGone),
            },
        }
    }

    /// What `geometry` returns for this shell in the given tables.
    ///
    /// For the layer variant the origin is always reported as (0, 0); that is
    /// an acknowledged approximation for anchored layer surfaces, kept as a
    /// refinement point rather than silently changed.
    pub open spec fn geometry_spec(self, shells: ShellsView) -> Result<Area, CompositorError> {
        match self {
            Shell::XdgV6(x) => if !shells.xdg_v6.dom().contains(x.shell_surface) {
                Result::Err(CompositorError::ResourceGone)
            } else if !(shells.xdg_v6[x.shell_surface].state is TopLevel) {
                Result::Err(CompositorError::ProtocolStateMismatch)
            } else {
                Result::Ok(shells.xdg_v6[x.shell_surface].geometry)
            },
            Shell::Layer(l) => if !shells.layers.dom().contains(l.shell_surface) {
                Result::Err(CompositorError::ResourceGone)
            } else {
                Result::Ok(
                    Area {
                        origin: Origin { x: 0, y: 0 },
                        size: shells.layers[l.shell_surface].actual_size,
                    },
                )
            },
        }
    }

    /// The current rectangle of the shell.  Reading the geometry of an xdg
    /// surface whose protocol state is not a recognized toplevel is a typed
    /// protocol-state mismatch, never an abort.
    pub fn geometry(&self, shells: &Shells) -> (r: Result<Area, CompositorError>)
        ensures
            r == self.geometry_spec(shells@),
    {
        match self {
            Shell::XdgV6(x) => match shells.xdg_v6.get(x.shell_surface) {
                Some(rec) => match rec.state {
                    XdgV6ShellState::TopLevel { .. } => Ok(rec.geometry),
                    XdgV6ShellState::Popup => Err(CompositorError::ProtocolStateMismatch),
                },
                None => Err(CompositorError::ResourceGone),
            },
            Shell::Layer(l) => match shells.layers.get(l.shell_surface) {
                Some(rec) => Ok(
                    Area { origin: Origin::new(0, 0), size: rec.actual_size },
                ),
                None => Err(CompositorError::ResourceGone),
            },
        }
    }

    /// Whether marking this shell activated or deactivated succeeds in the
    /// given tables.
    pub open spec fn activate_check(self, shells: ShellsView) -> Result<(), CompositorError> {
        match self {
            Shell::XdgV6(x) => if !shells.xdg_v6.dom().contains(x.shell_surface) {
                Result::Err(CompositorError::ResourceGone)
            } else if !(shells.xdg_v6[x.shell_surface].state is TopLevel) {
                Result::Err(CompositorError::ProtocolStateMismatch)
            } else {
                Result::Ok(())
            },
            Shell::Layer(_) => Result::Ok(()),
        }
    }

    /// The xdg table after (de)activating this shell: the activation flag of
    /// a live toplevel is replaced; any other shell leaves the table as it
    /// is.
    pub open spec fn activate_post_m(
        self,
        xdg: Map<Handle, XdgV6ShellSurface>,
        activated: bool,
    ) -> Map<Handle, XdgV6ShellSurface> {
        match self {
            Shell::XdgV6(x) => if xdg.dom().contains(x.shell_surface) {
                xdg.insert(
                    x.shell_surface,
                    (XdgV6ShellSurface {
                        state: XdgV6ShellState::TopLevel { activated },
                        ..xdg[x.shell_surface]
                    }),
                )
            } else {
                xdg
            },
            Shell::Layer(_) => xdg,
        }
    }

    /// Is the backing shell surface still alive?
    pub fn is_alive(&self, shells: &Shells) -> (b: bool)
        ensures
            b == self.alive(shells@),
    {
        match self {
            Shell::XdgV6(x) => shells.xdg_v6.contains(x.shell_surface),
            Shell::Layer(l) => shells.layers.contains(l.shell_surface),
        }
    }

    /// Read-only probe: whether `set_activated` would succeed right now.
    pub fn check_activate(&self, shells: &Shells) -> (r: Result<(), CompositorError>)
        ensures
            r == self.activate_check(shells@),
    {
        match self {
            Shell::XdgV6(x) => match shells.xdg_v6.get(x.shell_surface) {
                Some(rec) => match rec.state {
                    XdgV6ShellState::TopLevel { .. } => Ok(()),
                    XdgV6ShellState::Popup => Err(CompositorError::ProtocolStateMismatch),
                },
                None => Err(CompositorError::ResourceGone),
            },
            Shell::Layer(_) => Ok(()),
        }
    }

    /// Marks the window focused or unfocused at the protocol level.  A layer
    /// surface has no activation concept: that branch is deliberately a
    /// no-op rather than an error.
    pub fn set_activated(&self, shells: &mut Shells, activated: bool) -> (r: Result<
        (),
        CompositorError,
    >)
        ensures
            r == self.activate_check(old(shells)@),
            final(shells).layers == old(shells).layers,
            r is Ok ==> final(shells).xdg_v6@ == self.activate_post_m(
                old(shells).xdg_v6@,
                activated,
            ),
            r is Err ==> *final(shells) == *old(shells),
    {
        match self {
            Shell::XdgV6(x) => {
                let rec = match shells.xdg_v6.get(x.shell_surface) {
                    Some(rec) => *rec,
                    None => {
                        return Err(CompositorError::ResourceGone);
                    },
                };
                match rec.state {
                    XdgV6ShellState::TopLevel { .. } => {
                        let updated = XdgV6ShellSurface {
                            state: XdgV6ShellState::TopLevel { activated },
                            ..rec
                        };
                        shells.xdg_v6.update(x.shell_surface, updated);
                        Ok(())
                    },
                    XdgV6ShellState::Popup => Err(CompositorError::ProtocolStateMismatch),
                }
            },
            Shell::Layer(_) => Ok(()),
        }
    }

    /// Whether this shell can be given a new rectangle right now.
    pub open spec fn resize_check(self, shells: ShellsView) -> Result<(), CompositorError> {
        if self.alive(shells) {
            Result::Ok(())
        } else {
            Result::Err(CompositorError::ResourceGone)
        }
    }

    /// Emits a new rectangle to the shell in a single move-resize operation.
    /// For a layer surface only the size is tracked, since its origin is
    /// pinned at (0, 0).
    pub fn move_resize(&self, shells: &mut Shells, area: Area) -> (r: Result<
        (),
        CompositorError,
    >)
        ensures
            r == self.resize_check(old(shells)@),
            r is Err ==> *final(shells) == *old(shells),
            r is Ok ==> match self {
                Shell::XdgV6(x) => final(shells).layers == old(shells).layers
                    && final(shells).xdg_v6@ == old(shells).xdg_v6@.insert(
                    x.shell_surface,
                    (XdgV6ShellSurface { geometry: area, ..old(shells).xdg_v6@[x.shell_surface] }),
                ),
                Shell::Layer(l) => final(shells).xdg_v6 == old(shells).xdg_v6
                    && final(shells).layers@ == old(shells).layers@.insert(
                    l.shell_surface,
                    (LayerSurface { actual_size: area.size, ..old(shells).layers@[l.shell_surface] }),
                ),
            },
    {
        match self {
            Shell::XdgV6(x) => {
                let rec = match shells.xdg_v6.get(x.shell_surface) {
                    Some(rec) => *rec,
                    None => {
                        return Err(CompositorError::ResourceGone);
                    },
                };
                let updated = XdgV6ShellSurface { geometry: area, ..rec };
                shells.xdg_v6.update(x.shell_surface, updated);
                Ok(())
            },
            Shell::Layer(l) => {
                let rec = match shells.layers.get(l.shell_surface) {
                    Some(rec) => *rec,
                    None => {
                        return Err(CompositorError::ResourceGone);
                    },
                };
                let updated = LayerSurface { actual_size: area.size, ..rec };
                shells.layers.update(l.shell_surface, updated);
                Ok(())
            },
        }
    }

    /// Does the point `(sx, sy)`, in coordinates local to the shell's
    /// surface box, fall on the surface?
    pub open spec fn hits(self, shells: ShellsView, sx: int, sy: int) -> bool {
        &&& self.alive(shells)
        &&& 0 <= sx < self.size_of(shells).width
        &&& 0 <= sy < self.size_of(shells).height
    }

    /// Hit-tests the shell at surface-local coordinates.  A shell whose
    /// backing resource is gone hits nothing: the lookup fails safely and the
    /// caller simply moves on.
    pub fn surface_at(&self, shells: &Shells, sx: i64, sy: i64) -> (r: Option<(Handle, i32, i32)>)
        ensures
            self.hits(shells@, sx as int, sy as int) ==> r == Some(
                (self.surface_of(shells@), sx as i32, sy as i32),
            ),
            !self.hits(shells@, sx as int, sy as int) ==> r is None,
    {
        let size = match self {
            Shell::XdgV6(x) => match shells.xdg_v6.get(x.shell_surface) {
                Some(rec) => rec.geometry.size,
                None => {
                    return None;
                },
            },
            Shell::Layer(l) => match shells.layers.get(l.shell_surface) {
                Some(rec) => rec.actual_size,
                None => {
                    return None;
                },
            },
        };
        if 0 <= sx && sx < size.width as i64 && 0 <= sy && sy < size.height as i64 {
            let surface = match self.surface(shells) {
                Ok(s) => s,
                Err(_) => {
                    return None;
                },
            };
            Some((surface, sx as i32, sy as i32))
        } else {
            None
        }
    }
}

} // verus!
