//! Verified core of a small stateless HTTP gateway in front of the Brawl
//! Stars REST API.
//!
//! The library holds everything the gateway decides or computes: the route
//! table and its dispatch, the upstream URL built for each route, the bearer
//! credential handling, the classification of an upstream outcome into the
//! caller-visible response, and the cross-origin policy. The surrounding
//! binary only moves bytes: it accepts connections, performs the outbound
//! request, and hands the results to this library.

use vstd::prelude::*;

pub mod config;
pub mod cors;
pub mod digits;
pub mod forward;
pub mod route;

verus! {

/// Whether two string slices hold the same characters.
pub(crate) fn str_eq(a: &str, b: &str) -> (r: bool)
    ensures
        r == (a@ == b@),
{
    let owned_a: String = a.to_owned();
    let owned_b: String = b.to_owned();
    owned_a == owned_b
}

} // verus!
