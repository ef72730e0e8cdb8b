//! The formatter contract: the harness reports the start of a run, each
//! test's start and finish, and the final report through this trait.  All
//! but the bracketing start/complete calls may arrive concurrently from any
//! worker.

use vstd::prelude::*;

use crate::inputs::TestCandidate;
use crate::outputs::RunnerError;
use crate::outputs::RunnerOutput;
use crate::processing::TestReport;

verus! {

/// A consumer of run notifications, supplied by the caller.
pub trait EmuTestResultFormatter {
    /// Create the start of a report, usually indicating how many tests are
    /// about to be run.
    fn handle_start(&self, test_count: usize) -> Result<(), String>;

    /// Called whenever a test is about to start executing.
    ///
    /// Note that this can be called from several threads at the same time.
    fn handle_test_start(&self, test: &TestCandidate) -> Result<(), String>;

    /// Called whenever a test has been completed, from whichever worker ran
    /// it.
    ///
    /// Note that this can be called from several threads at the same time.
    fn handle_test_finish(&self, test_complete: Result<&RunnerOutput, &RunnerError>) -> Result<
        (),
        String,
    >;

    /// Handle the final report, containing all tests and the results
    /// thereof.  `time_taken` is the elapsed time of the entire suite in
    /// milliseconds; individual outputs carry their own run times.
    fn handle_complete(&self, report: &TestReport, time_taken: u64) -> Result<(), String>;
}

} // verus!
