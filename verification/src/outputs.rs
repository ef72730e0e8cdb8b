//! The output model: frames produced by a run, per-candidate execution
//! results, the five outcome kinds of one classified frame, and the carrier
//! type that pairs any of these with its candidate.

use vstd::prelude::*;

use crate::inputs::TestCandidate;

verus! {

/// A value paired with the candidate it belongs to.
#[derive(Debug, Clone)]
pub struct EmuContext<T> {
    pub candidate: TestCandidate,
    pub context: T,
}

impl<T> EmuContext<T> {
    /// Replace the carried context, keeping the candidate.
    pub fn map<E, F: FnOnce(T) -> E>(self, op: F) -> (r: EmuContext<E>)
        requires
            call_requires(op, (self.context,)),
        ensures
            r.candidate == self.candidate,
            call_ensures(op, (self.context,), r.context),
    {
        EmuContext { candidate: self.candidate, context: op(self.context) }
    }
}

/// One raw RGBA frame, row-major, four bytes per pixel.
#[derive(Debug, Clone)]
pub struct RgbaFrame(pub Vec<u8>);

/// One frame a run produced, with an optional tag telling frames of a
/// sequence test apart.
#[derive(Debug, Clone)]
pub struct FrameOutput {
    pub tag: Option<String>,
    pub frame: RgbaFrame,
}

/// What a successful execution of one candidate yielded: how long the run
/// took (in milliseconds) and every frame it produced.
#[derive(Debug)]
pub struct RunnerOutputContext {
    pub time_taken: u64,
    pub frame_output: Vec<FrameOutput>,
}

/// The classification of one frame together with the time the candidate's
/// run took, when it ran at all.
#[derive(Debug, Clone)]
pub struct TestOutputContext<T> {
    pub time_taken: Option<u64>,
    pub output: T,
}

/// The five outcome kinds of one classified frame.
#[derive(Debug, Clone)]
pub enum TestOutputType {
    Unchanged(TestOutputUnchanged),
    Changed(TestOutputChanged),
    Failure(TestOutputFailure),
    Passed(TestOutputPassed),
    Error(TestOutputError),
}

/// The frame matched the previous generation.  `newly_added` reports whether
/// no previous generation existed before this comparison.
#[derive(Debug, Clone)]
pub struct TestOutputUnchanged {
    pub newly_added: bool,
}

/// The frame differed from the previous generation; a copy was placed at
/// `changed_path`, the baseline it differed from lives at `old_path`.
#[derive(Debug, Clone)]
pub struct TestOutputChanged {
    pub changed_path: String,
    pub old_path: String,
}

/// The frame differed from its golden snapshot.  `is_new` reports whether the
/// previous generation still matched the snapshot, telling a fresh regression
/// from a persistent failure.
#[derive(Debug, Clone)]
pub struct TestOutputFailure {
    pub failure_path: String,
    pub snapshot_path: String,
    pub is_new: bool,
}

/// The frame matched its golden snapshot.  `is_new` reports whether the
/// previous generation did not match the snapshot, surfacing newly fixed
/// tests.
#[derive(Debug, Clone)]
pub struct TestOutputPassed {
    pub is_new: bool,
}

/// The frame could not be classified: an unreadable payload, an unwritable
/// disk, an undecodable baseline or a dimension mismatch.
#[derive(Debug, Clone)]
pub struct TestOutputError {
    pub reason: String,
}

pub type TestPassed = EmuContext<TestOutputContext<TestOutputPassed>>;

pub type TestUnchanged = EmuContext<TestOutputContext<TestOutputUnchanged>>;

pub type TestFailed = EmuContext<TestOutputContext<TestOutputFailure>>;

pub type TestError = EmuContext<TestOutputError>;

pub type TestChanged = EmuContext<TestOutputContext<TestOutputChanged>>;

pub type TestOutput = EmuContext<TestOutputContext<TestOutputType>>;

pub type RunnerError = EmuContext<String>;

pub type RunnerOutput = EmuContext<RunnerOutputContext>;

impl TestOutputType {
    /// An exact copy of this outcome.
    pub fn duplicate(&self) -> (r: TestOutputType)
        ensures
            r == *self,
    {
        match self {
            TestOutputType::Unchanged(u) => TestOutputType::Unchanged(
                TestOutputUnchanged { newly_added: u.newly_added },
            ),
            TestOutputType::Changed(c) => TestOutputType::Changed(
                TestOutputChanged {
                    changed_path: c.changed_path.clone(),
                    old_path: c.old_path.clone(),
                },
            ),
            TestOutputType::Failure(f) => TestOutputType::Failure(
                TestOutputFailure {
                    failure_path: f.failure_path.clone(),
                    snapshot_path: f.snapshot_path.clone(),
                    is_new: f.is_new,
                },
            ),
            TestOutputType::Passed(p) => TestOutputType::Passed(
                TestOutputPassed { is_new: p.is_new },
            ),
            TestOutputType::Error(e) => TestOutputType::Error(
                TestOutputError { reason: e.reason.clone() },
            ),
        }
    }
}

impl TestOutput {
    /// An exact copy of this output.
    pub fn duplicate(&self) -> (r: TestOutput)
        ensures
            r == *self,
    {
        EmuContext {
            candidate: self.candidate.duplicate(),
            context: TestOutputContext {
                time_taken: self.context.time_taken,
                output: self.context.output.duplicate(),
            },
        }
    }
}

} // verus!
