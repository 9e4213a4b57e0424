//! Orchestration core for unpacking Android application packages into
//! editable form and packing them again.
//!
//! The crate decides; it never writes a file or spawns a process.  Every
//! pipeline is a function from a state and the result of the last operation
//! to the next state and the next operation, so that a thin driver can carry
//! the operations out and report back.  Filling the cache of bundled tools is
//! planned the same way: as the list of writes to make, in their order.
//!
//! Three things are left to code that is not verified here: `std::path`
//! composes and takes apart paths, the `zip` crate reads archives, and the
//! `dirs` crate names the configuration directory.  Each is called through a
//! small function whose contract says what is taken on trust.

pub mod apk;
pub mod archive;
pub mod assets;
pub mod cli;
pub mod config;
pub mod error;
pub mod mcp;
pub mod paths;
pub mod pipeline;
pub mod platform;
pub mod process;
pub mod text;
pub mod tools;
