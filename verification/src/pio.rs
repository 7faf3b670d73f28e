//! What to make of a run of the build tool: its exit and its output.

use vstd::prelude::*;
use crate::esptool::{complaint, exit_failure};

verus! {

/// The outcome of a build: success if the tool exited cleanly, else a
/// complaint that quotes its output.
pub fn build(succeeded: bool, output: &str) -> (r: Result<(), String>)
    ensures
        match r {
            Ok(_) => succeeded,
            Err(e) => !succeeded && e@ == exit_failure("pio"@, output@),
        },
{
    if succeeded {
        Ok(())
    } else {
        Err(complaint("pio", output))
    }
}

/// The outcome of an upload: the tool's output if it exited cleanly, else
/// a complaint that quotes it.
pub fn flash(succeeded: bool, output: &str) -> (r: Result<String, String>)
    ensures
        match r {
            Ok(log) => succeeded && log@ == output@,
            Err(e) => !succeeded && e@ == exit_failure("pio"@, output@),
        },
{
    if succeeded {
        Ok(String::from_str(output))
    } else {
        Err(complaint("pio", output))
    }
}

} // verus!
