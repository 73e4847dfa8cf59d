//! Core of an image-triage tool: it keeps a navigable list of image files
//! found in a source directory, repairs the list when the directory changes
//! behind its back, and plans collision-safe moves of single files into
//! destination directories.
//!
//! Paths are modelled as plain byte strings (`Vec<u8>`). All filesystem
//! access is left to the caller: the library decides, the caller performs
//! each read or write and reports what happened.

pub mod browse;
pub mod mover;
pub mod paths;
pub mod scan;
