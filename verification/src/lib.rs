//! The logic of a small 2D game client with four screens: menu, play,
//! victory and level editor.
//!
//! The crate holds everything a frame needs that is not bound to a window or
//! a graphics device: the screen state machine, the per-screen logic, the
//! meshes of the menu and the list of draw commands that makes up a frame.
//! Whoever owns the window and the device feeds events in and carries the
//! meshes and commands out.

pub mod event;
pub mod logic;
pub mod renderer;

pub mod sprint_the_game;
