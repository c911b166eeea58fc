//! Writing CSV files: the result.

use vstd::prelude::*;

verus! {

pub struct WriteCsvResult {}

} // verus!
