//! What works in every mode: going to an offset, and the command line.

pub mod command;
pub mod goto;
