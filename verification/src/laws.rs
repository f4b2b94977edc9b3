use crate::model::{bisect_from, calls_from, find_result, mid_of, total_calls};
use crate::oracle::Check;
use crate::outcome::MinimalCompatibility;
use crate::release::Release;
use crate::verdict::{FatalError, Verdict};
use vstd::arithmetic::power2::pow2;
use vstd::prelude::*;

verus! {

proof fn lemma_window_boundary<R: Check>(
    runner: R,
    catalog: Seq<Release>,
    lo: int,
    hi: int,
    best: Option<int>,
    last_error: Option<String>,
    b: int,
)
    requires
        0 <= lo <= hi <= catalog.len(),
        0 <= b <= catalog.len(),
        forall|i: int| 0 <= i < b ==> runner.verdict(catalog[i]) is Incompatible,
        forall|i: int| b <= i < catalog.len() ==> runner.verdict(catalog[i]) is Compatible,
        lo <= b,
        b < hi || best == Some(b),
    ensures
        bisect_from(runner, catalog, lo, hi, best, last_error) matches Ok(p) && p.0 == Some(b),
    decreases hi - lo,
{
    if lo < hi {
        let mid = mid_of(lo, hi);
        if b <= mid {
            assert(runner.verdict(catalog[mid]) is Compatible);
            lemma_window_boundary(runner, catalog, lo, mid, Some(mid), last_error, b);
        } else {
            assert(runner.verdict(catalog[mid]) is Incompatible);
            lemma_window_boundary(
                runner,
                catalog,
                mid + 1,
                hi,
                best,
                Some(runner.verdict(catalog[mid])->reason),
                b,
            );
        }
    }
}

/// For a catalog whose verdicts have a true boundary — every candidate below
/// index `b` incompatible, every candidate at or above `b` compatible — the
/// search reports the candidate at exactly index `b`.
pub proof fn lemma_boundary_is_found<R: Check>(runner: R, catalog: Seq<Release>, b: int)
    requires
        0 <= b < catalog.len(),
        forall|i: int| 0 <= i < b ==> runner.verdict(catalog[i]) is Incompatible,
        forall|i: int| b <= i < catalog.len() ==> runner.verdict(catalog[i]) is Compatible,
    ensures
        find_result(runner, catalog) matches Ok(m) && m matches MinimalCompatibility::CapableToolchain { version, last_error } && version == catalog[b],
{
    lemma_window_boundary(runner, catalog, 0, catalog.len() as int, None, None, b);
}

/// The most evaluations a window of `n` candidates can take before the search
/// terminates: one for the midpoint, then the larger half shrinks to at most
/// `n / 2`. It equals one more than the floor of the base-two logarithm, for
/// `n` at least one.
spec fn steps_bound(n: nat) -> nat
    decreases n,
{
    if n == 0 {
        0
    } else {
        1 + steps_bound(n / 2)
    }
}

proof fn lemma_steps_bound_monotone(a: nat, b: nat)
    requires
        a <= b,
    ensures
        steps_bound(a) <= steps_bound(b),
    decreases b,
{
    if a > 0 {
        lemma_steps_bound_monotone(a / 2, b / 2);
    }
}

proof fn lemma_window_calls<R: Check>(runner: R, catalog: Seq<Release>, lo: int, hi: int)
    requires
        0 <= lo <= hi <= catalog.len(),
    ensures
        calls_from(runner, catalog, lo, hi) <= steps_bound((hi - lo) as nat),
    decreases hi - lo,
{
    if lo < hi {
        let mid = mid_of(lo, hi);
        match runner.verdict(catalog[mid]) {
            Verdict::Compatible => {
                lemma_window_calls(runner, catalog, lo, mid);
            },
            Verdict::Incompatible { .. } => {
                lemma_window_calls(runner, catalog, mid + 1, hi);
                assert(hi - mid - 1 <= (hi - lo) / 2);
                lemma_steps_bound_monotone((hi - mid - 1) as nat, (((hi - lo) / 2)) as nat);
            },
            Verdict::Unrecoverable { .. } => {
            },
        }
    }
}

proof fn lemma_steps_bound_pow2(n: nat, k: nat)
    requires
        n < pow2(k),
    ensures
        steps_bound(n) <= k,
    decreases k,
{
    if n > 0 {
        vstd::arithmetic::power2::lemma2_to64();
        if k == 0 {
            assert(false);
        } else {
            vstd::arithmetic::power2::lemma_pow2_unfold(k);
            lemma_steps_bound_pow2(n / 2, (k - 1) as nat);
        }
    }
}

/// A catalog of fewer than `2^k` candidates is resolved — or aborted — within
/// at most `k` oracle evaluations.
pub proof fn lemma_call_count_bound<R: Check>(runner: R, catalog: Seq<Release>, k: nat)
    requires
        catalog.len() < pow2(k),
    ensures
        total_calls(runner, catalog) <= k,
{
    lemma_window_calls(runner, catalog, 0, catalog.len() as int);
    lemma_steps_bound_pow2(catalog.len(), k);
}

proof fn lemma_window_all_incompatible<R: Check>(
    runner: R,
    catalog: Seq<Release>,
    lo: int,
    hi: int,
    best: Option<int>,
    last_error: Option<String>,
)
    requires
        0 <= lo < hi <= catalog.len(),
        forall|i: int| lo <= i < hi ==> runner.verdict(catalog[i]) is Incompatible,
    ensures
        bisect_from(runner, catalog, lo, hi, best, last_error) == Ok::<
            (Option<int>, Option<String>),
            FatalError,
        >((best, Some(runner.verdict(catalog[hi - 1])->reason))),
    decreases hi - lo,
{
    let mid = mid_of(lo, hi);
    assert(runner.verdict(catalog[mid]) is Incompatible);
    if mid + 1 < hi {
        lemma_window_all_incompatible(
            runner,
            catalog,
            mid + 1,
            hi,
            best,
            Some(runner.verdict(catalog[mid])->reason),
        );
    }
}

/// When every candidate is incompatible, the outcome is
/// `NoCompatibleToolchains`, and the attached reason is the one the oracle
/// gave for the last candidate the engine evaluated — which, with every
/// verdict incompatible, is the catalog's last element.
pub proof fn lemma_all_incompatible<R: Check>(runner: R, catalog: Seq<Release>)
    requires
        catalog.len() > 0,
        forall|i: int| 0 <= i < catalog.len() ==> runner.verdict(catalog[i]) is Incompatible,
    ensures
        find_result(runner, catalog) == Ok::<MinimalCompatibility, FatalError>(
            MinimalCompatibility::NoCompatibleToolchains {
                last_error: Some(runner.verdict(catalog[catalog.len() - 1])->reason),
            },
        ),
{
    lemma_window_all_incompatible(runner, catalog, 0, catalog.len() as int, None, None);
}

proof fn lemma_window_all_compatible<R: Check>(
    runner: R,
    catalog: Seq<Release>,
    lo: int,
    hi: int,
    best: Option<int>,
    last_error: Option<String>,
)
    requires
        0 <= lo <= hi <= catalog.len(),
        forall|i: int| lo <= i < hi ==> runner.verdict(catalog[i]) is Compatible,
    ensures
        bisect_from(runner, catalog, lo, hi, best, last_error) == Ok::<
            (Option<int>, Option<String>),
            FatalError,
        >((if lo < hi { Some(lo) } else { best }, last_error)),
    decreases hi - lo,
{
    if lo < hi {
        let mid = mid_of(lo, hi);
        lemma_window_all_compatible(runner, catalog, lo, mid, Some(mid), last_error);
    }
}

/// When every candidate is compatible, the outcome is the catalog's first —
/// lowest, oldest — candidate, and no incompatibility reason is attached.
pub proof fn lemma_all_compatible<R: Check>(runner: R, catalog: Seq<Release>)
    requires
        catalog.len() > 0,
        forall|i: int| 0 <= i < catalog.len() ==> runner.verdict(catalog[i]) is Compatible,
    ensures
        find_result(runner, catalog) == Ok::<MinimalCompatibility, FatalError>(
            MinimalCompatibility::CapableToolchain { version: catalog[0], last_error: None },
        ),
{
    lemma_window_all_compatible(runner, catalog, 0, catalog.len() as int, None, None);
}

/// An unrecoverable verdict at the candidate the engine evaluates next ends
/// the search at that single evaluation: the error is handed back unchanged,
/// and no further candidate is consulted.
pub proof fn lemma_unrecoverable_aborts<R: Check>(
    runner: R,
    catalog: Seq<Release>,
    lo: int,
    hi: int,
    best: Option<int>,
    last_error: Option<String>,
)
    requires
        0 <= lo < hi <= catalog.len(),
        runner.verdict(catalog[mid_of(lo, hi)]) is Unrecoverable,
    ensures
        bisect_from(runner, catalog, lo, hi, best, last_error) == Err::<
            (Option<int>, Option<String>),
            FatalError,
        >(runner.verdict(catalog[mid_of(lo, hi)])->error),
        calls_from(runner, catalog, lo, hi) == 1,
{
}

proof fn lemma_window_no_fatal<R: Check>(
    runner: R,
    catalog: Seq<Release>,
    lo: int,
    hi: int,
    best: Option<int>,
    last_error: Option<String>,
)
    requires
        0 <= lo <= hi <= catalog.len(),
        forall|i: int| lo <= i < hi ==> !(runner.verdict(catalog[i]) is Unrecoverable),
    ensures
        bisect_from(runner, catalog, lo, hi, best, last_error) is Ok,
    decreases hi - lo,
{
    if lo < hi {
        let mid = mid_of(lo, hi);
        match runner.verdict(catalog[mid]) {
            Verdict::Compatible => {
                lemma_window_no_fatal(runner, catalog, lo, mid, Some(mid), last_error);
            },
            Verdict::Incompatible { reason } => {
                lemma_window_no_fatal(runner, catalog, mid + 1, hi, best, Some(reason));
            },
            Verdict::Unrecoverable { .. } => {
            },
        }
    }
}

/// Absent an `Unrecoverable` verdict anywhere in the catalog, the search
/// returns an outcome, never an error.
pub proof fn lemma_ok_without_fatal<R: Check>(runner: R, catalog: Seq<Release>)
    requires
        forall|i: int| 0 <= i < catalog.len() ==> !(runner.verdict(catalog[i]) is Unrecoverable),
    ensures
        find_result(runner, catalog) is Ok,
{
    lemma_window_no_fatal(runner, catalog, 0, catalog.len() as int, None, None);
}

proof fn lemma_window_best_compatible<R: Check>(
    runner: R,
    catalog: Seq<Release>,
    lo: int,
    hi: int,
    best: Option<int>,
    last_error: Option<String>,
)
    requires
        0 <= lo <= hi <= catalog.len(),
        best matches Some(i) ==> 0 <= i < catalog.len() && runner.verdict(catalog[i]) is Compatible,
    ensures
        (bisect_from(runner, catalog, lo, hi, best, last_error) matches Ok(p) ==> (p.0 matches Some(
            j,
        ) ==> 0 <= j < catalog.len() && runner.verdict(catalog[j]) is Compatible)),
    decreases hi - lo,
{
    if lo < hi {
        let mid = mid_of(lo, hi);
        match runner.verdict(catalog[mid]) {
            Verdict::Compatible => {
                lemma_window_best_compatible(runner, catalog, lo, mid, Some(mid), last_error);
            },
            Verdict::Incompatible { reason } => {
                lemma_window_best_compatible(runner, catalog, mid + 1, hi, best, Some(reason));
            },
            Verdict::Unrecoverable { .. } => {
            },
        }
    }
}

/// Whatever the oracle's verdicts — monotone over the catalog or not — a
/// reported capable toolchain is a candidate of the catalog that the oracle
/// holds compatible.
pub proof fn lemma_reported_is_compatible<R: Check>(runner: R, catalog: Seq<Release>)
    ensures
        (find_result(runner, catalog) matches Ok(m) ==> (m matches MinimalCompatibility::CapableToolchain { version, last_error } ==> runner.verdict(version) is Compatible
            && exists|i: int| 0 <= i < catalog.len() && catalog[i] == version)),
{
    lemma_window_best_compatible(runner, catalog, 0, catalog.len() as int, None, None);
    match bisect_from(runner, catalog, 0, catalog.len() as int, None, None) {
        Ok(p) => {
            match p.0 {
                Some(j) => {
                    assert(0 <= j < catalog.len() && catalog[j] == catalog[j]);
                },
                None => {
                },
            }
        },
        Err(e) => {
        },
    }
}

} // verus!
