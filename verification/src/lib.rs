//! The session engine of an operator console for reverse shells: the
//! registry of connected sessions, the validation handshake, the socket
//! bridge, the attach/detach protocol with its keystroke encoding, and the
//! session list navigator. Every decision is made here; the I/O is left to
//! the caller.

pub mod acceptor;
pub mod bridge;
pub mod controller;
pub mod foreground;
pub mod keys;
pub mod menu;
pub mod navigator;
pub mod registry;
pub mod screen;
pub mod session;
pub mod text;
