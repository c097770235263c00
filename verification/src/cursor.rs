//! The shared cursor: position, shown image, and attached devices.

use vstd::prelude::*;

use crate::registry::Handle;

verus! {

/// Which image the cursor currently shows.
#[derive(Clone, Copy, Debug, PartialEq, Eq, Structural)]
pub enum CursorImage {
    /// The compositor's default theme image.
    Default,
    /// An image supplied by a client surface, drawn with the given hotspot.
    ClientSurface { surface: Handle, hotspot_x: i32, hotspot_y: i32 },
}

/// The seat's shared hardware cursor.
pub struct Cursor {
    /// Position in layout coordinates.
    pub x: i32,
    pub y: i32,
    /// The image currently shown.
    pub image: CursorImage,
    /// Every pointer device feeding this cursor.
    pub attached_devices: Vec<Handle>,
    /// Whether the cursor has been attached to the output layout.
    pub layout_attached: bool,
}

impl Cursor {
    /// A cursor at the layout origin showing the default image.
    pub fn new() -> (r: Cursor)
        ensures
            r.x == 0 && r.y == 0,
            r.image is Default,
            r.attached_devices@ == Seq::<Handle>::empty(),
            !r.layout_attached,
    {
        let r = Cursor {
            x: 0,
            y: 0,
            image: CursorImage::Default,
            attached_devices: Vec::new(),
            layout_attached: false,
        };
        proof {
            assert(r.attached_devices@ =~= Seq::<Handle>::empty());
        }
        r
    }

    /// The current position.
    pub fn coords(&self) -> (r: (i32, i32))
        ensures
            r == (self.x, self.y),
    {
        (self.x, self.y)
    }

    /// Warps the cursor to a new position.
    pub fn warp(&mut self, x: i32, y: i32)
        ensures
            *final(self) == (Cursor { x, y, ..*old(self) }),
    {
        self.x = x;
        self.y = y;
    }

    /// Shows a client-supplied cursor image.
    pub fn set_surface(&mut self, surface: Handle, hotspot_x: i32, hotspot_y: i32)
        ensures
            *final(self) == (Cursor {
                image: CursorImage::ClientSurface { surface, hotspot_x, hotspot_y },
                ..*old(self)
            }),
    {
        self.image = CursorImage::ClientSurface { surface, hotspot_x, hotspot_y };
    }

    /// Attaches a pointer device to the cursor.
    pub fn attach_input_device(&mut self, device: Handle)
        ensures
            final(self).attached_devices@ == old(self).attached_devices@.push(device),
            final(self).x == old(self).x && final(self).y == old(self).y,
            final(self).image == old(self).image,
            final(self).layout_attached == old(self).layout_attached,
    {
        self.attached_devices.push(device);
    }

    /// Attaches the cursor to the global output layout.
    pub fn attach_output_layout(&mut self)
        ensures
            *final(self) == (Cursor { layout_attached: true, ..*old(self) }),
    {
        self.layout_attached = true;
    }
}

/// The cursor theme manager: remembers which output scales have been loaded.
pub struct XCursorManager {
    pub loaded_scales: Vec<u32>,
}

impl XCursorManager {
    /// A manager with no scale loaded yet.
    pub fn new() -> (r: XCursorManager)
        ensures
            r.loaded_scales@ == Seq::<u32>::empty(),
    {
        let r = XCursorManager { loaded_scales: Vec::new() };
        proof {
            assert(r.loaded_scales@ =~= Seq::<u32>::empty());
        }
        r
    }

    /// Loads the cursor theme at an output's scale.
    pub fn load(&mut self, scale: u32)
        ensures
            final(self).loaded_scales@ == old(self).loaded_scales@.push(scale),
    {
        self.loaded_scales.push(scale);
    }

    /// Shows the compositor's default theme image on the cursor.
    pub fn set_default_image(&self, cursor: &mut Cursor)
        ensures
            *final(cursor) == (Cursor { image: CursorImage::Default, ..*old(cursor) }),
    {
        cursor.image = CursorImage::Default;
    }
}

} // verus!
