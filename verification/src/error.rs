//! What can go wrong between a fetched page and a finished fixture list.

use vstd::prelude::*;

verus! {

/// Why a kick-off text did not become an instant.
#[derive(Clone, Copy, Debug, PartialEq, Eq, Structural)]
pub enum TimeError {
    /// The date or the time text does not have the expected shape.
    ParseError,
    /// The civil time falls into a gap or an overlap of the source region's
    /// clock, so it names no single instant.
    AmbiguousOrInvalidLocalTime,
}

/// Why a page did not yield its fixtures.
#[derive(Clone, Copy, Debug, PartialEq, Eq, Structural)]
pub enum ExtractionError {
    /// The region that holds the fixtures is not in the page.
    StructureNotFound,
    /// The lists read from the page do not pair up.
    SchemaMismatch,
}

/// A failed page request, as the transport reported it.
#[derive(Clone, Debug, PartialEq, Eq)]
pub struct NetworkError {
    pub message: String,
}

/// Why fetching fixtures stopped.
#[derive(Clone, Debug, PartialEq, Eq)]
pub enum FetchError {
    Time(TimeError),
    Extraction(ExtractionError),
    Network(NetworkError),
}

} // verus!
