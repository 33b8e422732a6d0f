//! Glimmr lays out a directory listing as a themed, boxed file-tree diagram.
//!
//! The crate turns a flat, depth-annotated list of entries into positioned
//! rows, connector lines and a sized canvas, and proves with Verus that each
//! step computes what its contract says.

pub mod args;
pub mod fs_parser;
pub mod text;
pub mod transform;
pub mod visualize;
