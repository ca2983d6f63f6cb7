//! rx3wm: a tiling window manager in the manner of i3 and xmonad.
//!
//! This crate holds its logic: the commands and what they ask of the
//! workspaces, the default configuration, the status line, the tiling of
//! the Wayland backend, the errors and how the window manager starts on a
//! backend.
use vstd::prelude::*;

pub mod commands;
pub mod config;
pub mod errors;
pub mod keycode;
pub mod statusbar;
pub mod tiling;
pub mod window_system;

verus! {
} // verus!
