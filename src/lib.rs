//! Feed polling and ingestion engine of a self-hosted feed aggregator.
use vstd::prelude::*;

pub mod config;
pub mod enrichment;
pub mod entry;
pub mod feeds;
pub mod fetch;
pub mod forms;
pub mod frequency;
pub mod import;
pub mod interval;
pub mod scheduler;
pub mod models;
pub mod ssrf;
pub mod store;
pub mod text;

verus! {

/// Version of this package, as sent in the `User-Agent` header.
pub const PACKAGE_VERSION: &'static str = "0.1.0";

/// The `User-Agent` string: `FluxFeed/` followed by the package version.
pub fn user_agent() -> (r: String)
    ensures
        r@ == "FluxFeed/"@ + PACKAGE_VERSION@,
{
    let mut s = String::from_str("FluxFeed/");
    s.append(PACKAGE_VERSION);
    s
}

} // verus!
