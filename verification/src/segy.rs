//! Summary data for a binary trace file read elsewhere in the surrounding
//! application. Reading the file itself is I/O and lives outside this crate.

use vstd::prelude::*;

verus! {

/// Summary of one trace file: how many traces it holds.
pub struct SEGYInfo {
    pub trace_count: usize,
}

} // verus!

