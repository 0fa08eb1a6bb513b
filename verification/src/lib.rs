//! Rules of a desktop shell that keeps its main window above the others:
//! the commands of the "always on top" feature, the menu that offers them,
//! and the state that the window and the menu's indicator share.
//!
//! The library decides; the host application builds the native menu from
//! [`menu`], resolves menu events with [`command`], and reports back to
//! [`pin`] whether the window took the change.

pub mod command;
pub mod menu;
pub mod pin;
pub mod text;
