//! Configuration of one harness run: where output generations and golden
//! snapshots live, how many workers to use, the expected frame geometry, and
//! a few behavioural switches.

use vstd::prelude::*;

verus! {

/// Options governing a whole run.
///
/// `timeout` is a suite-level budget in milliseconds; on expiry the caller is
/// expected to end the whole process, there is no per-test cancellation.
#[derive(Debug, Clone)]
pub struct EmuRunnerOptions {
    pub output_path: String,
    pub snapshot_path: String,
    pub num_threads: usize,
    pub expected_frame_width: usize,
    pub expected_frame_height: usize,
    /// Whenever a test has more than 1 produced image this will put those together in a sub-folder.
    pub put_sequence_tests_in_subfolder: bool,
    /// Put a copy of a comparison image in the failed/changed directory for easy comparison.
    pub copy_comparison_image: bool,
    /// How long the entire test suite is allowed to take before the process is forcefully killed.
    pub timeout: Option<u64>,
}

impl Default for EmuRunnerOptions {
    /// A 240x160 frame, nesting and comparison copies on, and a 15 second
    /// suite budget.  The worker count is only promised to be at least one:
    /// the intended default is the machine's available parallelism, which is
    /// no verifiable constant — callers that want it substitute it, as the
    /// surrounding shell does.
    fn default() -> (r: Self)
        ensures
            r.output_path@ == "./test_output"@,
            r.snapshot_path@ == "./test_roms/expected"@,
            r.num_threads >= 1,
            r.expected_frame_width == 240,
            r.expected_frame_height == 160,
            r.put_sequence_tests_in_subfolder,
            r.copy_comparison_image,
            r.timeout == Some(15000u64),
    {
        EmuRunnerOptions {
            output_path: "./test_output".to_owned(),
            snapshot_path: "./test_roms/expected".to_owned(),
            num_threads: 1,
            expected_frame_width: 240,
            expected_frame_height: 160,
            put_sequence_tests_in_subfolder: true,
            copy_comparison_image: true,
            timeout: Some(15000),
        }
    }
}

} // verus!
