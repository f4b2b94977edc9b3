use crate::oracle::Check;
use crate::outcome::{outcome_of, MinimalCompatibility};
use crate::release::Release;
use crate::verdict::{FatalError, Verdict};
use vstd::prelude::*;

verus! {

/// The midpoint of the window `[lo, hi)`: the floor of the mean, the
/// deterministic tie-break the engine commits to.
pub open spec fn mid_of(lo: int, hi: int) -> int {
    lo + (hi - lo) / 2
}

/// The pure model of the search, continued from an intermediate state: the
/// window `[lo, hi)` of catalog indices still unresolved, the best (lowest)
/// index observed compatible so far, and the most recent incompatibility
/// reason. Each step evaluates the midpoint; a compatible verdict keeps the
/// lower half (the candidates at or below the midpoint), an incompatible
/// verdict excludes the midpoint and everything below it, and an
/// unrecoverable verdict ends the search with that error at once.
pub open spec fn bisect_from<R: Check>(
    runner: R,
    catalog: Seq<Release>,
    lo: int,
    hi: int,
    best: Option<int>,
    last_error: Option<String>,
) -> Result<(Option<int>, Option<String>), FatalError>
    decreases hi - lo,
        when lo <= hi
{
    if lo >= hi {
        Ok((best, last_error))
    } else {
        match runner.verdict(catalog[mid_of(lo, hi)]) {
            Verdict::Compatible => bisect_from(
                runner,
                catalog,
                lo,
                mid_of(lo, hi),
                Some(mid_of(lo, hi)),
                last_error,
            ),
            Verdict::Incompatible { reason } => bisect_from(
                runner,
                catalog,
                mid_of(lo, hi) + 1,
                hi,
                best,
                Some(reason),
            ),
            Verdict::Unrecoverable { error } => Err(error),
        }
    }
}

/// How many oracle evaluations the search performs from an intermediate
/// window before it terminates or aborts.
pub open spec fn calls_from<R: Check>(runner: R, catalog: Seq<Release>, lo: int, hi: int) -> nat
    decreases hi - lo,
        when lo <= hi
{
    if lo >= hi {
        0
    } else {
        match runner.verdict(catalog[mid_of(lo, hi)]) {
            Verdict::Compatible => 1 + calls_from(runner, catalog, lo, mid_of(lo, hi)),
            Verdict::Incompatible { .. } => 1 + calls_from(runner, catalog, mid_of(lo, hi) + 1, hi),
            Verdict::Unrecoverable { .. } => 1,
        }
    }
}

/// What one whole search returns: the model the engine is proved against.
/// It is a function of the catalog and of the oracle's verdicts alone, so two
/// searches against the same oracle and catalog return the same outcome.
pub open spec fn find_result<R: Check>(runner: R, catalog: Seq<Release>) -> Result<
    MinimalCompatibility,
    FatalError,
> {
    match bisect_from(runner, catalog, 0, catalog.len() as int, None, None) {
        Ok((best, last_error)) => Ok(outcome_of(catalog, best, last_error)),
        Err(e) => Err(e),
    }
}

/// How many oracle evaluations one whole search performs.
pub open spec fn total_calls<R: Check>(runner: R, catalog: Seq<Release>) -> nat {
    calls_from(runner, catalog, 0, catalog.len() as int)
}

/// The recorded best index, as the model speaks of it.
pub open spec fn opt_index(o: Option<usize>) -> Option<int> {
    match o {
        Some(i) => Some(i as int),
        None => None,
    }
}

} // verus!
