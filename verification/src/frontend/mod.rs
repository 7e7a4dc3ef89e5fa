//! The admin UI package: runs the admin UI server as a local process and
//! points the application window at it.

pub mod settings;
pub mod ui;
