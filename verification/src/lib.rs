//! Verified core of a web terminal: the decisions and data handling behind a
//! websocket-driven pseudo terminal, kept apart from the I/O that drives it.

pub mod error;
pub mod syscall;
pub mod relay;
pub mod json;
pub mod session;
pub mod assets;
