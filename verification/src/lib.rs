//! Navigation core of a terminal hex editor.
//!
//! The crate keeps a bounded window of a file resident, maps byte offsets to
//! a viewport and a cursor, tracks a directional byte-range selection and
//! records pending edits in an overlay that leaves the file untouched.

pub mod app;
pub mod config;
pub mod global;
pub mod hex;
pub mod initfile;
pub mod input;
pub mod util;
