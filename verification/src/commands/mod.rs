//! The commands of the program.
pub mod start;
