//! Process-wide immutable configuration: read once at startup, then passed
//! by reference into the clients and the pipeline, never mutated.

use vstd::prelude::*;

verus! {

/// Everything the service needs at startup. Missing required values are
/// fatal before serving; the optional credential may be absent, in which
/// case no credential header is ever sent.
pub struct Config {
    pub port: u16,
    pub api_token: Option<String>,
    pub pokemon_api_base_url: String,
    pub translation_api_base_url: String,
}

} // verus!
