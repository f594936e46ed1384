//! Line-ending normalization: locate text files under a set of root paths
//! and rewrite CRLF (`\r\n`) byte pairs to LF (`\n`), leaving binary files
//! untouched.
//!
//! The crate is split along the run's data flow:
//! - [`transform`]: the pure byte transform and its laws;
//! - [`classify`]: text-vs-binary content classification;
//! - [`selector`]: traversal of a root path into candidate files;
//! - [`orchestrate`]: per-file decisions and the run's counters.
//!
//! Reading and writing file contents is left to the caller: the functions
//! here take bytes and hand back bytes together with structured outcomes.

pub mod classify;
pub mod orchestrate;
pub mod selector;
pub mod transform;
