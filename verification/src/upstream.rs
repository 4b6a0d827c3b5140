//! The observable outcome of a single upstream HTTP exchange.
//!
//! The pipeline never performs a network call itself; the surrounding I/O
//! layer performs it and reports what happened as a [`FetchOutcome`]. The
//! verified code then classifies that outcome.

use vstd::prelude::*;

verus! {

/// What one upstream HTTP call produced, as far as the pipeline can see.
pub enum FetchOutcome<T> {
    /// No response at all: connection refused, timeout, DNS failure.
    TransportFailure,
    /// A response arrived with this status code. `body` holds the decoded
    /// payload when the status was 200 and the body could be read as a `T`,
    /// and `None` when decoding failed; on any other status the body is
    /// ignored.
    Response { status: u16, body: Option<T> },
}

} // verus!
