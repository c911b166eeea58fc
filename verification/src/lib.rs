//! A data multi-tool: a streaming pipeline of record batches with column
//! projection and "first N rows" / "last N rows" windowing.

pub mod batch;
pub mod cli;
pub mod commands;
pub mod errors;
pub mod pipeline;
pub mod schema;
pub mod text;
pub mod utils;

pub use errors::Error;
pub use utils::FileType;

use vstd::prelude::*;

verus! {

/// The datu crate version
pub const VERSION: &'static str = "0.1.0";

} // verus!
