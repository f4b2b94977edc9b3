use crate::release::Release;
use vstd::prelude::*;

verus! {

/// The terminal, immutable result of one search.
#[derive(Debug, PartialEq, Eq)]
pub enum MinimalCompatibility {
    /// No candidate was ever observed compatible. The most recent
    /// incompatibility reason, if any verdict produced one, is kept as
    /// diagnostic context.
    NoCompatibleToolchains { last_error: Option<String> },
    /// The lowest-index candidate that the engine observed as compatible,
    /// together with the most recent incompatibility reason, if any.
    CapableToolchain { version: Release, last_error: Option<String> },
}

/// The result summarizer: maps the final search state (best compatible
/// index, if any, and last recorded incompatibility reason) to the outcome.
pub open spec fn outcome_of(
    catalog: Seq<Release>,
    best: Option<int>,
    last_error: Option<String>,
) -> MinimalCompatibility {
    match best {
        Some(i) => MinimalCompatibility::CapableToolchain { version: catalog[i], last_error },
        None => MinimalCompatibility::NoCompatibleToolchains { last_error },
    }
}

} // verus!
