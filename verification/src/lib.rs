//! Core state-tracking library for a Hyprland status bar: parsing of the
//! compositor's event-socket line protocol, coalescing latest-value and
//! race-free broadcast primitives, the Wayland toplevel/output tracker state
//! machine, and the window reconciler that merges both sources into one
//! canonical window table.

pub mod broadcast;
pub mod commands;
pub mod events;
pub mod json;
pub mod keyed;
pub mod latest;
pub mod monitors;
pub mod text;
pub mod wayland_manager;
pub mod windows;
pub mod workspaces;
pub mod xdg_applications;
