//! Connector logic for a web manga catalog: URL normalization, entity
//! mapping, chapter reconciliation, request building and deep-link parsing,
//! with contracts verified by Verus. Network transport and JSON decoding sit
//! outside the library and hand it plain values.
use vstd::prelude::*;

pub mod chapters;
pub mod client;
pub mod deeplink;
pub mod mapper;
pub mod models;
pub mod strutil;
pub mod url;

verus! {

/// Origin of the catalog site; every URL the library produces is rooted here.
pub open spec fn base_chars() -> Seq<char> {
    "https://atsu.moe"@
}

} // verus!
