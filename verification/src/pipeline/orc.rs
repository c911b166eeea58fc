//! Reading and writing ORC files: the requests.

use vstd::prelude::*;

use crate::pipeline::ReadArgs;

verus! {

/// Pipeline step that reads an ORC file and produces a record batch reader.
pub struct ReadOrcStep {
    pub args: ReadArgs,
}

pub struct WriteOrcResult {}

} // verus!
