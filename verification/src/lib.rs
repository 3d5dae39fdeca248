//! Session multiplexing for an incremental-compilation service.
//!
//! A client opens, updates and closes files; every open file is served by a
//! live session of a compiler backend chosen by the file's extension.
//!
//! - [`inc`] holds the diagnostic model, the contract a backend implements
//!   and the spawner that routes a path to a backend; [`inc::clang`] holds
//!   the decisions of the backend for the C family.
//! - [`registry`] keeps the sessions of one connection by handle.
//! - [`proto`] holds the requests and responses, and [`dispatch`] turns the
//!   one into the other.
//! - [`fs`] is a snapshot of files and folders, and [`sample`] a few small
//!   value types.
//!
//! Nothing here reads a socket, a file or a clock, and nothing here starts a
//! thread: whoever runs the service does that and hands the library plain
//! values.

pub mod dispatch;
pub mod fs;
pub mod inc;
pub mod proto;
pub mod registry;
pub mod sample;
