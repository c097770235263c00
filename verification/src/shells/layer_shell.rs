//! The layer-shell protocol variant: background and overlay surfaces.

use vstd::prelude::*;

use crate::registry::Handle;
use crate::geometry::Size;

verus! {

/// Shell-side handle state for one layer surface, as carried inside a
/// [`crate::shells::Shell`] value.
#[derive(Clone, Copy, Debug, PartialEq, Eq, Structural)]
pub struct LayerShell {
    pub shell_surface: Handle,
    pub mapped: bool,
}

impl LayerShell {
    /// A handler not yet bound to a layer surface.
    pub fn new() -> (r: LayerShell)
        ensures
            r.shell_surface == Handle::null_spec(),
            !r.mapped,
    {
        LayerShell { shell_surface: Handle::null(), mapped: false }
    }

    /// A handler bound to the given layer surface.
    pub fn from_handle(shell_surface: Handle) -> (r: LayerShell)
        ensures
            r == (LayerShell { shell_surface, mapped: false }),
    {
        LayerShell { shell_surface, mapped: false }
    }

    /// The layer surface was mapped on screen.
    pub fn on_map(&mut self)
        ensures
            *final(self) == (LayerShell { mapped: true, ..*old(self) }),
    {
        self.mapped = true;
    }

    /// The layer surface was unmapped.
    pub fn on_unmap(&mut self)
        ensures
            *final(self) == (LayerShell { mapped: false, ..*old(self) }),
    {
        self.mapped = false;
    }
}

/// The tracked state of one live layer surface.
#[derive(Clone, Copy, Debug, PartialEq, Eq, Structural)]
pub struct LayerSurface {
    /// The underlying display surface.
    pub surface: Handle,
    /// The size the surface actually committed.
    pub actual_size: Size,
}

/// Accepts new layer surfaces and assigns them a default output.
pub struct LayerShellManager;

impl LayerShellManager {
    /// A new layer surface appeared.  If the protocol layer supplied no
    /// output, it defaults to the first output of the compositor's list; the
    /// returned handler is bound to the surface.
    pub fn new_surface(
        &self,
        outputs: &Vec<Handle>,
        output: &mut Option<Handle>,
        shell_surface: Handle,
    ) -> (r: LayerShell)
        ensures
            r == (LayerShell { shell_surface, mapped: false }),
            *final(output) == if *old(output) is Some {
                *old(output)
            } else if outputs@.len() > 0 {
                Some(outputs@[0])
            } else {
                None::<Handle>
            },
    {
        if output.is_none() {
            if outputs.len() > 0 {
                *output = Some(outputs[0]);
            }
        }
        LayerShell::from_handle(shell_surface)
    }
}

} // verus!
