//! A verified bisection search engine.
//!
//! Given an ordered catalog of candidate releases and an oracle that judges
//! one candidate at a time, the engine narrows a search window over catalog
//! indices until it has pinned the boundary between incompatible and
//! compatible candidates, and reports the minimal compatible candidate it
//! observed, together with the most recent incompatibility reason.

pub mod engine;
pub mod laws;
pub mod model;
pub mod oracle;
pub mod outcome;
pub mod progress;
pub mod release;
pub mod verdict;
