//! A verified engine for harvesting tabular statistics from paginated web
//! pages: cell normalisation, positional row decoding with default-on-failure
//! parsing, entity-key extraction, a bounded paginated crawler, and a
//! union-keyed join of independently fetched stat categories.
//!
//! Fetching pages and persisting results are the callers' business: the
//! library consumes page bodies (or fetch failures) as plain values and
//! returns typed tables.

use vstd::prelude::*;

pub mod crawl;
pub mod decode;
pub mod defense;
pub mod html;
pub mod join;
pub mod league;
pub mod offense;
pub mod players;
pub mod special_teams;
pub mod table;
pub mod teams;
pub mod text;

verus! {

/// The failures the harvest engine reports.
///
/// Only `Transport` is ever propagated out of a whole harvest; every other
/// anomaly (an unparsable cell, a row without a key) degrades to a default
/// value or a dropped row instead.
#[derive(Debug, Clone, Copy, PartialEq, Eq, Structural)]
pub enum HarvestError {
    /// A page fetch failed (network or HTTP error); fatal to the enclosing
    /// category fetch and to any join that depends on it.
    Transport,
    /// A lookup for a single entity found no record.
    NotFound,
    /// A page or value did not have the shape the engine requires.
    Malformed,
}

/// The outcome of one page fetch, supplied by the caller: the page body on
/// success, or `Failed` for a network/HTTP error.
#[derive(Debug)]
pub enum FetchResult {
    Body(String),
    Failed,
}

impl Clone for FetchResult {
    fn clone(&self) -> (r: Self)
        ensures
            r == *self,
    {
        match self {
            FetchResult::Body(b) => FetchResult::Body(b.clone()),
            FetchResult::Failed => FetchResult::Failed,
        }
    }
}

} // verus!
