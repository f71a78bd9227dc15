//! Build orchestration for assembly-language projects.
//!
//! The library decides; it never acts. It merges the layers of
//! configuration ([`config`]), tells which file-system entries are assembly
//! sources and lists them in order ([`discover`]), maps each source to its
//! object file and its binary ([`units`]), says how the assembler and the
//! linker are invoked ([`tooling`]), words and colours the console output
//! ([`report`]), and strings all of it together in a pipeline that is driven
//! by events ([`pipeline`]); [`trace`] states what holds of every run of
//! that pipeline. Reading files, walking directories, starting processes
//! and writing to the terminal are left to the caller.

pub mod config;
pub mod discover;
pub mod paths;
pub mod pipeline;
pub mod report;
pub mod styles;
pub mod text;
pub mod tooling;
pub mod trace;
pub mod units;
