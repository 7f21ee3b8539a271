//! Verified core of `sys_shred`, a secure file-erasure tool: the erasure plans of each
//! method, the chunking and read-back checks of overwrite passes, the decisions taken for
//! every target and directory entry, the random names used to scrub metadata, and the
//! audit report.
use vstd::prelude::*;

pub mod cli;
pub mod engine;
pub mod error;
pub mod paths;
pub mod text;

pub use engine::Shredder;
pub use error::{ShredError, ShredResult};

verus! {
} // verus!
