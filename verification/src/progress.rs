use crate::release::Release;
use vstd::prelude::*;

verus! {

/// A progress signal: the engine is about to evaluate the named release.
#[derive(Clone, Copy, PartialEq, Eq, Structural, Debug)]
pub enum ProgressAction {
    Checking(Release),
}

/// The progress reporter that the engine notifies as it narrows. The signals
/// are advisory only: they carry no contract, have no effect on the search's
/// correctness, and a no-op implementation is fully legal.
pub trait Output {
    /// The engine is about to evaluate a candidate.
    fn progress(&mut self, action: ProgressAction);

    /// An estimate of the total number of steps: the evaluations performed so
    /// far plus the span of the remaining window.
    fn set_steps(&mut self, steps: u64);
}

/// A reporter that discards every signal.
pub struct SilentOutput;

impl Output for SilentOutput {
    fn progress(&mut self, _action: ProgressAction) {
    }

    fn set_steps(&mut self, _steps: u64) {
    }
}

/// A reporter that records every signal, in order: the releases the engine
/// evaluated, and each step estimate it announced.
pub struct RecordingOutput {
    pub checked: Vec<Release>,
    pub steps: Vec<u64>,
}

impl RecordingOutput {
    pub fn new() -> (r: RecordingOutput)
        ensures
            r.checked@ == Seq::<Release>::empty(),
            r.steps@ == Seq::<u64>::empty(),
    {
        RecordingOutput { checked: Vec::new(), steps: Vec::new() }
    }
}

impl Output for RecordingOutput {
    fn progress(&mut self, action: ProgressAction) {
        match action {
            ProgressAction::Checking(release) => self.checked.push(release),
        }
    }

    fn set_steps(&mut self, steps: u64) {
        self.steps.push(steps);
    }
}

} // verus!
