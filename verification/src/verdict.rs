use vstd::prelude::*;

verus! {

/// An unrecoverable failure of the checking infrastructure itself, distinct
/// from a candidate that merely fails the compatibility check. It aborts the
/// search at once and is handed back to the caller unchanged.
#[derive(Debug, PartialEq, Eq)]
pub struct FatalError {
    pub cause: String,
}

impl FatalError {
    pub fn new(cause: String) -> (e: FatalError)
        ensures
            e.cause == cause,
    {
        FatalError { cause }
    }

    /// A deep copy whose result is known, in contracts, to equal the original.
    pub fn duplicate(&self) -> (e: FatalError)
        ensures
            e == *self,
    {
        FatalError { cause: self.cause.clone() }
    }
}

/// The three-way result of evaluating one candidate. A legitimate negative
/// result (`Incompatible`) drives the narrowing and is never an error; only
/// `Unrecoverable` aborts the search.
#[derive(Debug, PartialEq, Eq)]
pub enum Verdict {
    Compatible,
    Incompatible { reason: String },
    Unrecoverable { error: FatalError },
}

impl Verdict {
    /// A deep copy whose result is known, in contracts, to equal the original.
    pub fn duplicate(&self) -> (v: Verdict)
        ensures
            v == *self,
    {
        match self {
            Verdict::Compatible => Verdict::Compatible,
            Verdict::Incompatible { reason } => Verdict::Incompatible { reason: reason.clone() },
            Verdict::Unrecoverable { error } => Verdict::Unrecoverable { error: error.duplicate() },
        }
    }
}

} // verus!
