//! Verified core of a tray-resident overlay controller.
//!
//! The crate decides; it never touches the operating system. Every function
//! takes plain observations (a monitor size, a visibility flag, the exit
//! status of a child process) and returns plain instructions (a position, a
//! list of window operations, an event to emit). The host application reads
//! the observations, calls in, and carries the instructions out.

pub mod commands;
pub mod dispatch;
pub mod geometry;
pub mod intent;
pub mod invoker;
pub mod menu;
pub mod shortcut;
pub mod text;
pub mod window;
