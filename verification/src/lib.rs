//! A snapshot-testing harness for emulator-style programs.
//!
//! Each test candidate names a binary payload (a "ROM"); running it yields one
//! or more raw RGBA frames.  A frame is persisted as an image under a `new`
//! generation directory and compared byte-for-byte against a golden snapshot
//! (if one exists) or against the previous run's `old` generation, yielding
//! one of five outcomes: passed, failed, changed, unchanged or errored.  A
//! report partitions all outcomes into five disjoint buckets.
//!
//! This crate holds the verified core: the candidate model, path derivation,
//! frame classification, report aggregation and the fault-correlation buffer.
//! Callers supply the surrounding I/O: reading payloads, walking directories,
//! writing image files and driving a worker pool.

use vstd::prelude::*;
use vstd::string::StringExecFns;

pub mod formatters;
pub mod images;
pub mod inputs;
pub mod options;
pub mod outputs;
pub mod panics;
pub mod processing;
pub mod setup;

verus! {

/// The failure of one execution whose payload could not be read.  I/O
/// failure shares the failure kind with a recovered fault; only the message
/// differs.
pub fn read_failure(candidate: inputs::TestCandidate, error: String) -> (r: outputs::RunnerError)
    ensures
        r.candidate == candidate,
        r.context@ == "Couldn't read ROM: "@ + error@,
{
    outputs::EmuContext {
        candidate,
        context: String::from_str("Couldn't read ROM: ").concat(error.as_str()),
    }
}

/// The failure of one execution whose run callback faulted.  The message is
/// the one pulled from the fault-correlation buffer for the recovering
/// worker, never fabricated.
pub fn panic_failure(candidate: inputs::TestCandidate, panic_msg: String) -> (r:
    outputs::RunnerError)
    ensures
        r.candidate == candidate,
        r.context@ == "Caught an emulator panic: `"@ + panic_msg@ + "`"@,
{
    outputs::EmuContext {
        candidate,
        context: String::from_str("Caught an emulator panic: `").concat(panic_msg.as_str()).concat(
            "`",
        ),
    }
}

/// A place a rendered frame can be compared against: one of the four on-disk
/// generation directories, or a buffer already held in memory.
#[derive(Debug, Clone)]
pub enum OutputDestinations<'a> {
    Old,
    New,
    Failures,
    Changed,
    InMemory(&'a [u8]),
}

impl<'a> OutputDestinations<'a> {
    /// The generation directory this destination names under `output_path`,
    /// or `None` for an in-memory buffer.
    pub fn to_path(&self, output_path: &str) -> (r: Option<String>)
        ensures
            match self {
                OutputDestinations::Old => r matches Some(p) && p@ == output_path@ + "/old"@,
                OutputDestinations::New => r matches Some(p) && p@ == output_path@ + "/new"@,
                OutputDestinations::Failures => r matches Some(p) && p@ == output_path@
                    + "/failures"@,
                OutputDestinations::Changed => r matches Some(p) && p@ == output_path@
                    + "/changed"@,
                OutputDestinations::InMemory(_) => r is None,
            },
    {
        match self {
            OutputDestinations::Old => Some(setup::old_path(output_path)),
            OutputDestinations::New => Some(setup::new_path(output_path)),
            OutputDestinations::Failures => Some(setup::failures_path(output_path)),
            OutputDestinations::Changed => Some(setup::changed_path(output_path)),
            OutputDestinations::InMemory(_) => None,
        }
    }
}

} // verus!
