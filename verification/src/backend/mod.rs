//! The backend package: a supervisor that runs MongoDB and the Music Server
//! backend, with a tray icon, a status window and a settings window.

pub mod services;
pub mod runner;
pub mod settings;
pub mod status;
pub mod tray;
