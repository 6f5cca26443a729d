//! Protocol adaptation layer between a HAMMER2 filesystem engine and a
//! kernel file-access protocol.
//!
//! The engine and the kernel channel are reached by the surrounding program.
//! This library holds what is decided in between: how engine errors become
//! protocol errors, how engine metadata becomes protocol attributes, how open
//! handles are counted, how a directory listing is cut into pages, and how the
//! control channel routes its numbered commands.
pub mod adapter;
pub mod attr;
pub mod control;
pub mod dir;
pub mod error;
pub mod handle;
pub mod pfs;
pub mod volume;
