//! Reading and writing Avro files: the requests.

use vstd::prelude::*;

verus! {

/// Arguments for reading an Avro file
pub struct ReadAvroArgs {
    pub path: String,
    pub limit: Option<usize>,
}

/// A step in a pipeline that reads an Avro file
pub struct ReadAvroStep {
    pub args: ReadAvroArgs,
}

/// Arguments for writing an Avro file
pub struct WriteAvroArgs {
    pub path: String,
}

pub struct WriteAvroResult {}

} // verus!
