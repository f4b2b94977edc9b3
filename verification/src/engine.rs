use crate::model::{bisect_from, find_result, opt_index};
use crate::oracle::Check;
use crate::outcome::{outcome_of, MinimalCompatibility};
use crate::progress::{Output, ProgressAction};
use crate::release::Release;
use crate::verdict::{FatalError, Verdict};
use vstd::prelude::*;

verus! {

/// The bisection engine: narrows a window of catalog indices around the
/// boundary between incompatible and compatible candidates.
///
/// Convention: the catalog is ordered oldest first, and the compatibility
/// predicate is assumed monotonic over it — every candidate below the true
/// boundary incompatible, every candidate at or above it compatible. A
/// compatible midpoint narrows the window to the candidates at or below it;
/// an incompatible midpoint excludes itself and everything below it. The
/// midpoint is always the floor of the window's mean. The engine does not
/// verify monotonicity: where it is violated, the reported candidate is the
/// lowest one the engine observed as compatible along its midpoint path, not
/// a global minimum.
///
/// The search ends only when the window is empty, so a window of a single
/// candidate is still evaluated: a catalog of one release takes exactly one
/// oracle call, and only the empty catalog takes none.
pub struct Bisect<R: Check> {
    pub runner: R,
}

impl<R: Check> Bisect<R> {
    pub fn new(runner: R) -> (s: Self)
        ensures
            s.runner == runner,
    {
        Self { runner }
    }

    /// Announce the release about to be evaluated, then ask the oracle.
    fn run_check<O: Output>(runner: &R, release: &Release, output: &mut O) -> (v: Verdict)
        ensures
            v == runner.verdict(*release),
    {
        output.progress(ProgressAction::Checking(*release));
        runner.check(release)
    }

    /// Report the estimated total number of steps: the evaluations performed
    /// so far plus the span of the remaining window.
    fn update_progress_bar<O: Output>(iteration: u64, remainder: u64, output: &mut O)
        requires
            iteration + remainder <= u64::MAX,
    {
        output.set_steps(remainder + iteration);
    }

    /// The result summarizer: pure, with no fallible path of its own.
    fn minimum_capable(
        releases: &Vec<Release>,
        index_of_msrv: Option<usize>,
        last_error: Option<String>,
    ) -> (m: MinimalCompatibility)
        requires
            index_of_msrv matches Some(i) ==> i < releases@.len(),
        ensures
            m == outcome_of(releases@, opt_index(index_of_msrv), last_error),
    {
        match index_of_msrv {
            Some(index) => {
                let version = releases[index];
                MinimalCompatibility::CapableToolchain { version, last_error }
            },
            None => MinimalCompatibility::NoCompatibleToolchains { last_error },
        }
    }

    /// Run one whole search over the catalog.
    ///
    /// The result equals the pure model `find_result` of the oracle's
    /// verdicts and the catalog alone — so a second search against the same
    /// oracle and catalog returns the same outcome. An empty catalog yields
    /// `NoCompatibleToolchains` without consulting the oracle; an
    /// unrecoverable verdict is handed back unchanged as the error.
    pub fn find_toolchain<O: Output>(
        &self,
        search_space: &Vec<Release>,
        output: &mut O,
    ) -> (result: Result<MinimalCompatibility, FatalError>)
        ensures
            result == find_result(self.runner, search_space@),
    {
        let n = search_space.len();
        let mut lo: usize = 0;
        let mut hi: usize = n;
        let mut iteration: u64 = 0;
        let mut last_compatible_index: Option<usize> = None;
        let mut last_failure_report: Option<String> = None;

        while lo < hi
            invariant
                lo <= hi <= n,
                n == search_space@.len(),
                iteration as int + hi as int - lo as int <= n as int,
                last_compatible_index matches Some(i) ==> i < n,
                bisect_from(
                    self.runner,
                    search_space@,
                    lo as int,
                    hi as int,
                    opt_index(last_compatible_index),
                    last_failure_report,
                ) == bisect_from(self.runner, search_space@, 0, n as int, None, None),
            decreases hi - lo,
        {
            let mid = lo + (hi - lo) / 2;
            let release = search_space[mid];
            let verdict = Self::run_check(&self.runner, &release, output);
            iteration = iteration + 1;

            match verdict {
                Verdict::Compatible => {
                    last_compatible_index = Some(mid);
                    hi = mid;
                },
                Verdict::Incompatible { reason } => {
                    last_failure_report = Some(reason);
                    lo = mid + 1;
                },
                Verdict::Unrecoverable { error } => {
                    Self::update_progress_bar(iteration, (mid - lo) as u64, output);
                    return Err(error);
                },
            }
            Self::update_progress_bar(iteration, (hi - lo) as u64, output);
        }

        Ok(Self::minimum_capable(search_space, last_compatible_index, last_failure_report))
    }
}

} // verus!
