//! The classification engine and the report aggregator.
//!
//! Classification takes one frame a run produced, the raw bytes of the
//! baselines on disk, and the paths derived for the frame, and yields one of
//! the five outcome kinds.  Comparison is exact byte equality of decoded
//! pixels; decode failures and dimension mismatches yield an error outcome,
//! never a failure.  Aggregation partitions the full output list into five
//! disjoint buckets, one per outcome kind.

use vstd::prelude::*;
use vstd::string::StringExecFns;

use crate::images::decode_image;
use crate::images::decoded_image;
use crate::images::encode_png;
use crate::images::png_encoding;
use crate::outputs::EmuContext;
use crate::outputs::FrameOutput;
use crate::outputs::RunnerError;
use crate::outputs::RunnerOutput;
use crate::outputs::TestChanged;
use crate::outputs::TestError;
use crate::outputs::TestFailed;
use crate::outputs::TestOutput;
use crate::outputs::TestPassed;
use crate::outputs::TestUnchanged;
use crate::outputs::TestOutputChanged;
use crate::outputs::TestOutputContext;
use crate::outputs::TestOutputError;
use crate::outputs::TestOutputFailure;
use crate::outputs::TestOutputPassed;
use crate::outputs::TestOutputType;
use crate::outputs::TestOutputUnchanged;
use crate::setup::FramePaths;

verus! {

/// The baseline bytes classification reads for one frame: the image file of
/// the previous generation, and the golden snapshot, each absent when no such
/// file exists.
pub struct FrameFiles {
    pub old_file: Option<Vec<u8>>,
    pub snapshot_file: Option<Vec<u8>>,
}

/// What classifying one frame produced: the outcome, and the encoded image
/// to persist at the frame's `new` location (absent when the frame could not
/// be encoded).
pub struct FrameClassification {
    pub outcome: TestOutputType,
    pub new_image: Option<Vec<u8>>,
}

/// The bytes a baseline file holds, seen through the option that records
/// whether the file exists.
pub open spec fn opt_bytes(file: Option<Vec<u8>>) -> Option<Seq<u8>> {
    match file {
        Some(v) => Some(v@),
        None => None,
    }
}

/// Whether the previous generation's file exists and decodes to exactly
/// `data`.  A missing or undecodable file never matches.
pub open spec fn old_matches(old_file: Option<Seq<u8>>, data: Seq<u8>) -> bool {
    match old_file {
        Some(bytes) => decoded_image(bytes) == Some(data),
        None => false,
    }
}

/// The outcome of classifying one frame, as a function of the frame's
/// pixels and the baseline files.  `None` stands for the cases whose outcome
/// is an error with a message taken from the codec: a baseline file — the
/// golden snapshot, or the previous generation when it decides the outcome —
/// that exists but does not decode.  A decode failure is never conflated
/// with a failed or changed comparison.
pub open spec fn classified(
    frame: Seq<u8>,
    old_file: Option<Seq<u8>>,
    snapshot_file: Option<Seq<u8>>,
    paths: FramePaths,
) -> Option<TestOutputType> {
    match snapshot_file {
        Some(snapshot_bytes) => match decoded_image(snapshot_bytes) {
            None => None,
            Some(snapshot_pixels) => if snapshot_pixels != frame {
                Some(
                    TestOutputType::Failure(
                        TestOutputFailure {
                            failure_path: paths.failure_path,
                            snapshot_path: paths.snapshot_path,
                            is_new: old_matches(old_file, snapshot_pixels),
                        },
                    ),
                )
            } else {
                Some(
                    TestOutputType::Passed(
                        TestOutputPassed { is_new: !old_matches(old_file, snapshot_pixels) },
                    ),
                )
            },
        },
        None => match old_file {
            Some(old_bytes) => match decoded_image(old_bytes) {
                None => None,
                Some(old_pixels) => if old_pixels != frame {
                    Some(
                        TestOutputType::Changed(
                            TestOutputChanged {
                                changed_path: paths.changed_path,
                                old_path: paths.old_path,
                            },
                        ),
                    )
                } else {
                    Some(TestOutputType::Unchanged(TestOutputUnchanged { newly_added: false }))
                },
            },
            None => Some(
                TestOutputType::Changed(
                    TestOutputChanged { changed_path: paths.changed_path, old_path: paths.old_path },
                ),
            ),
        },
    }
}

/// Exact byte equality of two buffers.
fn bytes_equal(a: &Vec<u8>, b: &Vec<u8>) -> (r: bool)
    ensures
        r == (a@ == b@),
{
    if a.len() != b.len() {
        return false;
    }
    let mut i: usize = 0;
    while i < a.len()
        invariant
            i <= a@.len(),
            a@.len() == b@.len(),
            forall|j: int| 0 <= j < i ==> a@[j] == b@[j],
        decreases a@.len() - i,
    {
        if a[i] != b[i] {
            return false;
        }
        i = i + 1;
    }
    proof {
        assert(a@ =~= b@);
    }
    true
}

/// Whether the previous generation's file decodes to exactly `data`.
fn old_equals_data(old_file: &Option<Vec<u8>>, data: &Vec<u8>) -> (r: bool)
    ensures
        r == old_matches(opt_bytes(*old_file), data@),
{
    match old_file {
        None => false,
        Some(bytes) => match decode_image(bytes) {
            Err(_) => false,
            Ok(pixels) => bytes_equal(&pixels, data),
        },
    }
}

/// Classify one frame against its baselines.
///
/// With a golden snapshot present the frame must match it byte for byte:
/// equal pixels pass, different pixels fail, and an undecodable snapshot is
/// an error.  Without a snapshot the frame is compared against the previous
/// generation: a missing or different baseline means the frame changed, an
/// identical one means it is unchanged, and a baseline that exists but does
/// not decode is an error, never a change.
pub fn classify_frame(
    frame: &Vec<u8>,
    old_file: &Option<Vec<u8>>,
    snapshot_file: &Option<Vec<u8>>,
    paths: &FramePaths,
) -> (r: TestOutputType)
    ensures
        match classified(frame@, opt_bytes(*old_file), opt_bytes(*snapshot_file), *paths) {
            Some(outcome) => r == outcome,
            None => r is Error,
        },
{
    match snapshot_file {
        Some(snapshot_bytes) => match decode_image(snapshot_bytes) {
            Err(e) => TestOutputType::Error(TestOutputError { reason: e }),
            Ok(snapshot_pixels) => if !bytes_equal(&snapshot_pixels, frame) {
                TestOutputType::Failure(
                    TestOutputFailure {
                        failure_path: paths.failure_path.clone(),
                        snapshot_path: paths.snapshot_path.clone(),
                        is_new: old_equals_data(old_file, &snapshot_pixels),
                    },
                )
            } else {
                TestOutputType::Passed(
                    TestOutputPassed { is_new: !old_equals_data(old_file, &snapshot_pixels) },
                )
            },
        },
        None => match old_file {
            Some(old_bytes) => match decode_image(old_bytes) {
                Err(e) => TestOutputType::Error(TestOutputError { reason: e }),
                Ok(old_pixels) => if !bytes_equal(&old_pixels, frame) {
                    TestOutputType::Changed(
                        TestOutputChanged {
                            changed_path: paths.changed_path.clone(),
                            old_path: paths.old_path.clone(),
                        },
                    )
                } else {
                    TestOutputType::Unchanged(TestOutputUnchanged { newly_added: false })
                },
            },
            None => TestOutputType::Changed(
                TestOutputChanged {
                    changed_path: paths.changed_path.clone(),
                    old_path: paths.old_path.clone(),
                },
            ),
        },
    }
}

/// What classifying one frame must yield: a dimension mismatch is an error
/// and nothing is persisted; every well-formed frame — a buffer that fits
/// positive, representable dimensions — is encoded and handed back for
/// persisting, whatever its outcome; whenever an encoded image is handed
/// back it is the frame's PNG encoding and the outcome is `classified`; and
/// an encoding failure is an error.
pub open spec fn frame_result_ok(
    frame: FrameOutput,
    files: FrameFiles,
    paths: FramePaths,
    width: int,
    height: int,
    outcome: TestOutputType,
    new_image: Option<Vec<u8>>,
) -> bool {
    let fv = frame.frame.0@;
    let ow = opt_bytes(files.old_file);
    let sv = opt_bytes(files.snapshot_file);
    &&& (fv.len() != width * height * 4 ==> {
        &&& new_image is None
        &&& outcome matches TestOutputType::Error(e) && e.reason@
            == "Failed to turn framebuffer to dynamic image"@
    })
    &&& (fv.len() == width * height * 4 && new_image is None ==> outcome is Error)
    &&& (fv.len() == width * height * 4 && 1 <= width <= u32::MAX && 1 <= height <= u32::MAX
        ==> new_image is Some)
    &&& (new_image matches Some(v) ==> {
        &&& fv.len() == width * height * 4
        &&& v@ == png_encoding(width as nat, height as nat, fv)
        &&& match classified(fv, ow, sv, paths) {
            Some(o) => outcome == o,
            None => outcome is Error,
        }
    })
}

/// Classify one frame and produce the image to persist at its `new` location.
///
/// The frame must hold exactly `width * height * 4` bytes; anything else is
/// a dimension-mismatch error and nothing is persisted.  A well-formed frame
/// always comes back with its encoded image, even when a baseline problem
/// makes the outcome an error.
pub fn process_frame(
    frame: &FrameOutput,
    files: &FrameFiles,
    paths: &FramePaths,
    width: usize,
    height: usize,
) -> (r: FrameClassification)
    ensures
        frame_result_ok(
            *frame,
            *files,
            *paths,
            width as int,
            height as int,
            r.outcome,
            r.new_image,
        ),
{
    let frame_len = frame.frame.0.len();
    let size_matches = match width.checked_mul(height) {
        Some(p) => match p.checked_mul(4) {
            Some(total) => total == frame_len,
            None => false,
        },
        None => false,
    };
    if !size_matches {
        proof {
            let w = width as int;
            let h = height as int;
            if w * h > usize::MAX as int {
                assert(w * h * 4 > usize::MAX as int) by (nonlinear_arith)
                    requires
                        w * h > usize::MAX as int,
                        w >= 0,
                        h >= 0,
                ;
            }
        }
        return FrameClassification {
            outcome: TestOutputType::Error(
                TestOutputError {
                    reason: String::from_str("Failed to turn framebuffer to dynamic image"),
                },
            ),
            new_image: None,
        };
    }
    if width > u32::MAX as usize || height > u32::MAX as usize {
        return FrameClassification {
            outcome: TestOutputType::Error(
                TestOutputError {
                    reason: String::from_str("Frame dimensions exceed the supported range"),
                },
            ),
            new_image: None,
        };
    }
    match encode_png(width, height, &frame.frame.0) {
        Err(e) => FrameClassification {
            outcome: TestOutputType::Error(TestOutputError { reason: e }),
            new_image: None,
        },
        Ok(png) => FrameClassification {
            outcome: classify_frame(
                &frame.frame.0,
                &files.old_file,
                &files.snapshot_file,
                paths,
            ),
            new_image: Some(png),
        },
    }
}

/// The classification of one frame paired with the candidate and run time it
/// belongs to, and the image to persist at the frame's `new` location.
pub struct FrameResult {
    pub output: TestOutput,
    pub new_image: Option<Vec<u8>>,
}

/// What one entry of a candidate's classification must hold: the candidate
/// and run time carried over, and the frame's classification as
/// `frame_result_ok` demands.
pub open spec fn candidate_entry_ok(
    runner_output: RunnerOutput,
    files: Seq<FrameFiles>,
    paths: Seq<FramePaths>,
    width: int,
    height: int,
    entry: FrameResult,
    i: int,
) -> bool {
    &&& entry.output.candidate == runner_output.candidate
    &&& entry.output.context.time_taken == Some(runner_output.context.time_taken)
    &&& frame_result_ok(
        runner_output.context.frame_output@[i],
        files[i],
        paths[i],
        width,
        height,
        entry.output.context.output,
        entry.new_image,
    )
}

/// Classify every frame of one successful execution.
///
/// A run that produced `n` frames yields exactly `n` outputs, each carrying
/// the candidate and the run's elapsed time, classified in production order
/// against the baseline files read for it.
pub fn process_candidate(
    runner_output: &RunnerOutput,
    files: &Vec<FrameFiles>,
    paths: &Vec<FramePaths>,
    width: usize,
    height: usize,
) -> (r: Vec<FrameResult>)
    requires
        files@.len() == runner_output.context.frame_output@.len(),
        paths@.len() == runner_output.context.frame_output@.len(),
    ensures
        r@.len() == runner_output.context.frame_output@.len(),
        forall|i: int|
            0 <= i < r@.len() ==> candidate_entry_ok(
                *runner_output,
                files@,
                paths@,
                width as int,
                height as int,
                #[trigger] r@[i],
                i,
            ),
{
    let n = runner_output.context.frame_output.len();
    let mut out: Vec<FrameResult> = Vec::new();
    let mut i: usize = 0;
    while i < n
        invariant
            i <= n,
            n == runner_output.context.frame_output@.len(),
            files@.len() == n,
            paths@.len() == n,
            out@.len() == i,
            forall|j: int|
                0 <= j < i ==> candidate_entry_ok(
                    *runner_output,
                    files@,
                    paths@,
                    width as int,
                    height as int,
                    #[trigger] out@[j],
                    j,
                ),
        decreases n - i,
    {
        let classification = process_frame(
            &runner_output.context.frame_output[i],
            &files[i],
            &paths[i],
            width,
            height,
        );
        out.push(
            FrameResult {
                output: EmuContext {
                    candidate: runner_output.candidate.duplicate(),
                    context: TestOutputContext {
                        time_taken: Some(runner_output.context.time_taken),
                        output: classification.outcome,
                    },
                },
                new_image: classification.new_image,
            },
        );
        i = i + 1;
    }
    out
}

impl From<RunnerError> for TestOutput {
    /// Fold one failed execution into the output taxonomy: an error outcome
    /// carrying the failure's message, with no run time.
    fn from(value: RunnerError) -> (r: Self) {
        EmuContext {
            candidate: value.candidate,
            context: TestOutputContext {
                time_taken: None,
                output: TestOutputType::Error(TestOutputError { reason: value.context }),
            },
        }
    }
}

impl vstd::std_specs::convert::FromSpecImpl<RunnerError> for TestOutput {
    open spec fn obeys_from_spec() -> bool {
        true
    }

    open spec fn from_spec(v: RunnerError) -> Self {
        EmuContext {
            candidate: v.candidate,
            context: TestOutputContext {
                time_taken: None,
                output: TestOutputType::Error(TestOutputError { reason: v.context }),
            },
        }
    }
}

/// The outputs of `s` whose outcome is `Passed`, in order, each reduced to
/// its passed payload.
pub open spec fn passed_of(s: Seq<TestOutput>) -> Seq<TestPassed>
    decreases s.len(),
{
    if s.len() == 0 {
        Seq::empty()
    } else {
        let rest = passed_of(s.drop_last());
        match s.last().context.output {
            TestOutputType::Passed(p) => rest.push(
                EmuContext {
                    candidate: s.last().candidate,
                    context: TestOutputContext {
                        time_taken: s.last().context.time_taken,
                        output: p,
                    },
                },
            ),
            _ => rest,
        }
    }
}

/// The outputs of `s` whose outcome is `Unchanged`, in order.
pub open spec fn unchanged_of(s: Seq<TestOutput>) -> Seq<TestUnchanged>
    decreases s.len(),
{
    if s.len() == 0 {
        Seq::empty()
    } else {
        let rest = unchanged_of(s.drop_last());
        match s.last().context.output {
            TestOutputType::Unchanged(u) => rest.push(
                EmuContext {
                    candidate: s.last().candidate,
                    context: TestOutputContext {
                        time_taken: s.last().context.time_taken,
                        output: u,
                    },
                },
            ),
            _ => rest,
        }
    }
}

/// The outputs of `s` whose outcome is `Failure`, in order.
pub open spec fn fails_of(s: Seq<TestOutput>) -> Seq<TestFailed>
    decreases s.len(),
{
    if s.len() == 0 {
        Seq::empty()
    } else {
        let rest = fails_of(s.drop_last());
        match s.last().context.output {
            TestOutputType::Failure(f) => rest.push(
                EmuContext {
                    candidate: s.last().candidate,
                    context: TestOutputContext {
                        time_taken: s.last().context.time_taken,
                        output: f,
                    },
                },
            ),
            _ => rest,
        }
    }
}

/// The outputs of `s` whose outcome is `Changed`, in order.
pub open spec fn changed_of(s: Seq<TestOutput>) -> Seq<TestChanged>
    decreases s.len(),
{
    if s.len() == 0 {
        Seq::empty()
    } else {
        let rest = changed_of(s.drop_last());
        match s.last().context.output {
            TestOutputType::Changed(c) => rest.push(
                EmuContext {
                    candidate: s.last().candidate,
                    context: TestOutputContext {
                        time_taken: s.last().context.time_taken,
                        output: c,
                    },
                },
            ),
            _ => rest,
        }
    }
}

/// The outputs of `s` whose outcome is `Error`, in order, each reduced to the
/// error it carries.
pub open spec fn errors_of(s: Seq<TestOutput>) -> Seq<TestError>
    decreases s.len(),
{
    if s.len() == 0 {
        Seq::empty()
    } else {
        let rest = errors_of(s.drop_last());
        match s.last().context.output {
            TestOutputType::Error(e) => rest.push(
                EmuContext { candidate: s.last().candidate, context: e },
            ),
            _ => rest,
        }
    }
}

/// The final report of one run: every output, and the same outputs
/// partitioned into five disjoint buckets by outcome kind.
pub struct TestReport {
    pub test_outputs: Vec<TestOutput>,
    pub passed: Vec<TestPassed>,
    pub unchanged: Vec<TestUnchanged>,
    pub fails: Vec<TestFailed>,
    pub changed: Vec<TestChanged>,
    pub errors: Vec<TestError>,
}

impl TestReport {
    /// Partition `test_outputs` into the five buckets, retaining the full
    /// list.  Each output lands in exactly the bucket of its outcome kind,
    /// in its original order.
    pub fn new(test_outputs: Vec<TestOutput>) -> (r: TestReport)
        ensures
            r.test_outputs == test_outputs,
            r.passed@ == passed_of(test_outputs@),
            r.unchanged@ == unchanged_of(test_outputs@),
            r.fails@ == fails_of(test_outputs@),
            r.changed@ == changed_of(test_outputs@),
            r.errors@ == errors_of(test_outputs@),
    {
        let mut passed: Vec<TestPassed> = Vec::new();
        let mut unchanged: Vec<TestUnchanged> = Vec::new();
        let mut fails: Vec<TestFailed> = Vec::new();
        let mut changed: Vec<TestChanged> = Vec::new();
        let mut errors: Vec<TestError> = Vec::new();
        let mut i: usize = 0;
        while i < test_outputs.len()
            invariant
                i <= test_outputs@.len(),
                passed@ == passed_of(test_outputs@.take(i as int)),
                unchanged@ == unchanged_of(test_outputs@.take(i as int)),
                fails@ == fails_of(test_outputs@.take(i as int)),
                changed@ == changed_of(test_outputs@.take(i as int)),
                errors@ == errors_of(test_outputs@.take(i as int)),
            decreases test_outputs@.len() - i,
        {
            let report = test_outputs[i].duplicate();
            let EmuContext { candidate, context } = report;
            let TestOutputContext { time_taken, output } = context;
            match output {
                TestOutputType::Unchanged(same) => unchanged.push(
                    EmuContext {
                        candidate,
                        context: TestOutputContext { time_taken, output: same },
                    },
                ),
                TestOutputType::Changed(changes) => changed.push(
                    EmuContext {
                        candidate,
                        context: TestOutputContext { time_taken, output: changes },
                    },
                ),
                TestOutputType::Failure(fail) => fails.push(
                    EmuContext {
                        candidate,
                        context: TestOutputContext { time_taken, output: fail },
                    },
                ),
                TestOutputType::Passed(pass) => passed.push(
                    EmuContext {
                        candidate,
                        context: TestOutputContext { time_taken, output: pass },
                    },
                ),
                TestOutputType::Error(error) => errors.push(
                    EmuContext { candidate, context: error },
                ),
            }
            proof {
                assert(test_outputs@.take(i as int + 1).drop_last() =~= test_outputs@.take(
                    i as int,
                ));
                assert(test_outputs@.take(i as int + 1).last() == test_outputs@[i as int]);
            }
            i = i + 1;
        }
        proof {
            assert(test_outputs@.take(test_outputs@.len() as int) =~= test_outputs@);
        }
        TestReport { test_outputs, passed, unchanged, fails, changed, errors }
    }
}

/// Law: the five buckets partition the outputs.  Every output lands in the
/// bucket of its outcome kind and in no other, so the bucket lengths always
/// sum to the length of the full output list.
pub proof fn lemma_report_buckets_partition(outputs: Seq<TestOutput>)
    ensures
        passed_of(outputs).len() + unchanged_of(outputs).len() + fails_of(outputs).len()
            + changed_of(outputs).len() + errors_of(outputs).len() == outputs.len(),
    decreases outputs.len(),
{
    if outputs.len() > 0 {
        lemma_report_buckets_partition(outputs.drop_last());
    }
}

/// Law: re-running a candidate unchanged, with no golden snapshot, yields
/// `Unchanged` (and not newly added), provided the previous generation's file
/// decodes back to exactly the frame's pixels; and the very first run, with
/// no previous generation at all, yields `Changed`.
pub proof fn lemma_rerun_unchanged(frame: Seq<u8>, old_bytes: Seq<u8>, paths: FramePaths)
    requires
        decoded_image(old_bytes) == Some(frame),
    ensures
        classified(frame, Some(old_bytes), None, paths) == Some(
            TestOutputType::Unchanged(TestOutputUnchanged { newly_added: false }),
        ),
        classified(frame, None, None, paths) == Some(
            TestOutputType::Changed(
                (TestOutputChanged { changed_path: paths.changed_path, old_path: paths.old_path }),
            ),
        ),
{
}

/// Law: a regression is flagged as new exactly once.  With a golden snapshot
/// that decodes to the pixels of run A, and a run B whose frame differs from
/// them, classification fails; it reports `is_new` when the previous
/// generation still matched the snapshot (A immediately preceded), and not
/// when the previous generation already shows run B's differing output.
pub proof fn lemma_regression_detection(
    frame_b: Seq<u8>,
    snapshot_bytes: Seq<u8>,
    snapshot_pixels: Seq<u8>,
    old_a: Seq<u8>,
    old_b: Seq<u8>,
    paths: FramePaths,
)
    requires
        decoded_image(snapshot_bytes) == Some(snapshot_pixels),
        snapshot_pixels != frame_b,
        decoded_image(old_a) == Some(snapshot_pixels),
        decoded_image(old_b) == Some(frame_b),
    ensures
        classified(frame_b, Some(old_a), Some(snapshot_bytes), paths) == Some(
            TestOutputType::Failure(
                (TestOutputFailure {
                    failure_path: paths.failure_path,
                    snapshot_path: paths.snapshot_path,
                    is_new: true,
                }),
            ),
        ),
        classified(frame_b, Some(old_b), Some(snapshot_bytes), paths) == Some(
            TestOutputType::Failure(
                (TestOutputFailure {
                    failure_path: paths.failure_path,
                    snapshot_path: paths.snapshot_path,
                    is_new: false,
                }),
            ),
        ),
{
}

/// Law: comparison is byte-exact against a golden snapshot.  If the decoded
/// snapshot differs from the frame in even a single byte, classification
/// yields `Failure`, never `Passed`.
pub proof fn lemma_byte_exactness_snapshot(
    frame: Seq<u8>,
    old_file: Option<Seq<u8>>,
    snapshot_bytes: Seq<u8>,
    snapshot_pixels: Seq<u8>,
    j: int,
    paths: FramePaths,
)
    requires
        decoded_image(snapshot_bytes) == Some(snapshot_pixels),
        snapshot_pixels.len() == frame.len(),
        0 <= j < frame.len(),
        snapshot_pixels[j] != frame[j],
    ensures
        classified(frame, old_file, Some(snapshot_bytes), paths) matches Some(o) && o is Failure,
{
    assert(snapshot_pixels != frame);
}

/// Law: comparison is byte-exact against the previous generation.  If the
/// decoded baseline differs from the frame in even a single byte,
/// classification yields `Changed`, never `Unchanged`.
pub proof fn lemma_byte_exactness_generation(
    frame: Seq<u8>,
    old_bytes: Seq<u8>,
    old_pixels: Seq<u8>,
    j: int,
    paths: FramePaths,
)
    requires
        decoded_image(old_bytes) == Some(old_pixels),
        old_pixels.len() == frame.len(),
        0 <= j < frame.len(),
        old_pixels[j] != frame[j],
    ensures
        classified(frame, Some(old_bytes), None, paths) matches Some(o) && o is Changed,
{
    assert(old_pixels != frame);
}

} // verus!
