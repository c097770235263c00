//! Policy core of a tiling Wayland compositor: focus handling, the
//! most-recently-used view list, pointer-driven move/resize gestures, seat
//! capability negotiation, output and input hotplug bookkeeping, and the
//! lifecycle of shell surfaces and drag icons.
//!
//! Every long-lived protocol resource (surface, output, keyboard, ...) is
//! referred to through a generation-counted weak handle; access goes through a
//! registry lookup that fails cleanly once the resource is destroyed, so the
//! state machine can never act on a stale reference.

pub mod client;
pub mod cursor;
pub mod error;
pub mod geometry;
pub mod input_manager;
pub mod keybindings;
pub mod output_manager;
pub mod registry;
pub mod seat;
pub mod server;
pub mod shells;
pub mod view;
