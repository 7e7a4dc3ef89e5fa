//! Verified core of the Music Server desktop packages: the settings model,
//! the supervisor's decisions for the backend package (which processes to
//! start, stop and wait for, and what the status window shows), and the
//! launch description of the admin UI package. Everything that touches the
//! window system, processes, sockets or files lives in the application
//! crate around this library.

pub mod backend;
pub mod frontend;
pub mod https;
pub mod paths;
pub mod probe;
pub mod process;
pub mod text;
