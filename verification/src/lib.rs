//! Filesystem mutation primitives behind a C-compatible boundary.
//!
//! The crate holds everything that is decided rather than done: how a foreign
//! string handle becomes a path, which host filesystem call an operation asks
//! for next, how a recursive copy walks a directory tree, how a numeric mode
//! maps onto the permission model of the platform, and how an outcome is
//! wrapped in the result envelope. The host calls themselves are made by the
//! embedding program, which answers each [`host::HostCall`] with a
//! [`host::HostReply`].

pub mod common;
pub mod engine;
pub mod ffi;
pub mod host;
pub mod operations;
pub mod permissions;
pub mod text;
pub mod traversal;

pub use common::{FsError, FsResult};
