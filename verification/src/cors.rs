//! The cross-origin policy applied uniformly to all routes.
//!
//! Only three origins may call the gateway from a browser context, only the
//! methods GET and OPTIONS are allowed, and any request header is accepted.

use vstd::prelude::*;

use crate::str_eq;

verus! {

/// The port the gateway listens on, on all interfaces.
pub const LISTEN_PORT: u16 = 8080;

/// Whether the policy allows an origin: exactly the three allowed origins.
pub open spec fn origin_allowed_spec(origin: Seq<char>) -> bool {
    ||| origin == "http://localhost:1420"@
    ||| origin == "tauri://localhost"@
    ||| origin == "capacitor://localhost"@
}

/// Whether the policy allows a method: GET and OPTIONS only.
pub open spec fn method_allowed_spec(method: Seq<char>) -> bool {
    method == "GET"@ || method == "OPTIONS"@
}

/// Decides whether the policy allows a cross-origin request from `origin`.
pub fn origin_allowed(origin: &str) -> (r: bool)
    ensures
        r == origin_allowed_spec(origin@),
{
    str_eq(origin, "http://localhost:1420") || str_eq(origin, "tauri://localhost") || str_eq(
        origin,
        "capacitor://localhost",
    )
}

/// Decides whether the policy allows a method.
pub fn method_allowed(method: &str) -> (r: bool)
    ensures
        r == method_allowed_spec(method@),
{
    str_eq(method, "GET") || str_eq(method, "OPTIONS")
}

/// Decides whether the policy admits a cross-origin request: the origin
/// must be on the allow-list and the method must be GET or OPTIONS.
pub fn cors_allows(origin: &str, method: &str) -> (r: bool)
    ensures
        r == (origin_allowed_spec(origin@) && method_allowed_spec(method@)),
{
    origin_allowed(origin) && method_allowed(method)
}

/// The origin allow-list, for configuring the serving layer. Every element
/// is allowed by the policy, and nothing else is.
pub fn allowed_origins() -> (r: Vec<String>)
    ensures
        r@.len() == 3,
        r@[0]@ == "http://localhost:1420"@,
        r@[1]@ == "tauri://localhost"@,
        r@[2]@ == "capacitor://localhost"@,
        forall|i: int| 0 <= i < r@.len() ==> origin_allowed_spec(#[trigger] r@[i]@),
{
    let mut origins: Vec<String> = Vec::new();
    origins.push(String::from_str("http://localhost:1420"));
    origins.push(String::from_str("tauri://localhost"));
    origins.push(String::from_str("capacitor://localhost"));
    origins
}

/// The method allow-list, for configuring the serving layer. Every element
/// is allowed by the policy, and nothing else is.
pub fn allowed_methods() -> (r: Vec<String>)
    ensures
        r@.len() == 2,
        r@[0]@ == "GET"@,
        r@[1]@ == "OPTIONS"@,
        forall|i: int| 0 <= i < r@.len() ==> method_allowed_spec(#[trigger] r@[i]@),
{
    let mut methods: Vec<String> = Vec::new();
    methods.push(String::from_str("GET"));
    methods.push(String::from_str("OPTIONS"));
    methods
}

} // verus!
