use crate::release::Release;
use crate::verdict::Verdict;
use vstd::prelude::*;

verus! {

/// The oracle interface that the engine consumes: one operation that
/// evaluates a candidate and returns a three-way verdict.
///
/// The oracle must be deterministic within one search: repeated evaluation of
/// the same candidate would not change the outcome. That requirement is what
/// the specification function `verdict` expresses: an implementation chooses
/// the verdict each release maps to, and `check` returns exactly that
/// verdict. The engine does not assume that verdicts are monotonic over the
/// catalog; where they are not, the reported candidate is only the boundary
/// nearest the midpoint path, not a global minimum.
pub trait Check {
    /// The fixed verdict this oracle holds for a release.
    spec fn verdict(&self, release: Release) -> Verdict;

    /// Evaluate one candidate. May be long-running and blocking; the engine
    /// imposes no timeout and never retries.
    fn check(&self, release: &Release) -> (v: Verdict)
        ensures
            v == self.verdict(*release),
    ;
}

/// First-match lookup of a release among scripted entries; releases that no
/// entry names receive the fallback verdict.
pub open spec fn lookup_verdict(
    entries: Seq<(Release, Verdict)>,
    fallback: Verdict,
    release: Release,
) -> Verdict
    decreases entries.len(),
{
    if entries.len() == 0 {
        fallback
    } else if entries[0].0 == release {
        entries[0].1
    } else {
        lookup_verdict(entries.drop_first(), fallback, release)
    }
}

/// A deterministic oracle with a scripted verdict per release: the first
/// entry that names the release decides, and releases that no entry names
/// receive the fallback verdict.
pub struct FixedOracle {
    pub entries: Vec<(Release, Verdict)>,
    pub fallback: Verdict,
}

impl FixedOracle {
    pub fn new(entries: Vec<(Release, Verdict)>, fallback: Verdict) -> (o: FixedOracle)
        ensures
            o.entries == entries,
            o.fallback == fallback,
    {
        FixedOracle { entries, fallback }
    }
}

impl Check for FixedOracle {
    open spec fn verdict(&self, release: Release) -> Verdict {
        lookup_verdict(self.entries@, self.fallback, release)
    }

    fn check(&self, release: &Release) -> (v: Verdict) {
        let mut i: usize = 0;
        assert(self.entries@.skip(0) =~= self.entries@);
        while i < self.entries.len()
            invariant
                i <= self.entries@.len(),
                lookup_verdict(self.entries@.skip(i as int), self.fallback, *release)
                    == lookup_verdict(self.entries@, self.fallback, *release),
            decreases self.entries@.len() - i,
        {
            assert(self.entries@.skip(i as int)[0] == self.entries@[i as int]);
            if self.entries[i].0 == *release {
                return self.entries[i].1.duplicate();
            }
            assert(self.entries@.skip(i as int).drop_first() =~= self.entries@.skip(
                i as int + 1,
            ));
            i = i + 1;
        }
        assert(self.entries@.skip(i as int) =~= Seq::<(Release, Verdict)>::empty());
        self.fallback.duplicate()
    }
}

} // verus!
