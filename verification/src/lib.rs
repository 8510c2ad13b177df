//! Core logic of a small desktop-application shell.
//!
//! Two independent paths are modelled and verified here:
//!
//! - a command registry: a fixed mapping from command name to handler,
//!   invoked synchronously (`registry::invoke`);
//! - a menu dispatcher: a statically shaped menu tree (`menu`) and the
//!   routing of menu-activation events to fire-and-forget notifications
//!   (`dispatch`).
//!
//! The host environment (windowing, native menu rendering, the actual
//! publish channel) is an outside collaborator and stays outside this
//! crate; it hands events in and carries notifications out as plain
//! values.

pub mod dispatch;
pub mod menu;
pub mod registry;
pub mod text;
