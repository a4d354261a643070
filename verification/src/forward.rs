//! The shared forwarding logic behind every route.
//!
//! One request is handled in three steps. First the outbound upstream
//! request is prepared from the route and the configuration: the upstream
//! URL and the `Authorization` header. Then the surrounding binary performs
//! the GET. Last, whatever came back is classified and relayed: a 2xx
//! upstream response reaches the caller as 200 with the upstream body
//! unchanged; any other upstream status is mirrored with a fixed-format
//! error body; a transport failure becomes 502 with a body naming it.

use vstd::prelude::*;

use crate::config::Config;
use crate::config::bearer_header_value;
use crate::route::Route;
use crate::route::upstream_url_spec;

verus! {

/// Everything the outbound upstream call needs: the URL to GET and the
/// value of the `Authorization` header.
pub struct UpstreamRequest {
    pub url: String,
    pub auth_header: String,
}

/// Prepares the outbound request for `route`: the resolved upstream URL and
/// the bearer credential the caller never sees.
pub fn prepare_request(config: &Config, route: &Route) -> (r: UpstreamRequest)
    ensures
        r.url@ == upstream_url_spec(*route),
        r.auth_header@ == bearer_header_value(config.token_view()),
{
    UpstreamRequest { url: route.upstream_url(), auth_header: config.auth_header() }
}

/// The classified outcome of one upstream call.
pub enum UpstreamOutcome {
    /// The upstream answered with a 2xx status and this body (an empty body
    /// stands in when the body could not be read).
    Success { status: u16, body: String },
    /// The upstream answered with a non-2xx status; its own error body is
    /// discarded, only the status line text is kept.
    UpstreamError { status: u16, status_text: String },
    /// No response arrived at all (DNS, TCP, TLS or other I/O failure).
    TransportFailure { description: String },
}

/// Whether an upstream status counts as success: the 2xx class.
pub open spec fn is_success_status(status: int) -> bool {
    200 <= status < 300
}

/// How a received upstream response is classified, given its status, its
/// status line text and its body.
pub open spec fn classify_spec(status: u16, status_text: String, body: String) -> UpstreamOutcome {
    if is_success_status(status as int) {
        UpstreamOutcome::Success { status, body }
    } else {
        UpstreamOutcome::UpstreamError { status, status_text }
    }
}

/// Classifies a response that did arrive: 2xx keeps the body and drops the
/// status text, anything else keeps the status and its text and drops the
/// body.
pub fn classify_response(status: u16, status_text: String, body: String) -> (r: UpstreamOutcome)
    ensures
        r == classify_spec(status, status_text, body),
{
    if 200 <= status && status < 300 {
        UpstreamOutcome::Success { status, body }
    } else {
        UpstreamOutcome::UpstreamError { status, status_text }
    }
}

/// The caller-visible HTTP status for an outcome: 200 for any upstream
/// success, the mirrored upstream status for an upstream error, 502 for a
/// transport failure.
pub open spec fn relay_status(o: UpstreamOutcome) -> int {
    match o {
        UpstreamOutcome::Success { .. } => 200,
        UpstreamOutcome::UpstreamError { status, .. } => status as int,
        UpstreamOutcome::TransportFailure { .. } => 502,
    }
}

/// The body sent to the caller when the upstream answered with a non-2xx
/// status.
pub open spec fn upstream_error_body(status_text: Seq<char>) -> Seq<char> {
    "Errore Brawl Stars: "@ + status_text
}

/// The body sent to the caller when the upstream could not be reached.
pub open spec fn transport_failure_body(description: Seq<char>) -> Seq<char> {
    "Errore reqwest: "@ + description
}

/// The caller-visible body for an outcome: the upstream body itself on
/// success, a fixed-format error string otherwise.
pub open spec fn relay_body(o: UpstreamOutcome) -> Seq<char> {
    match o {
        UpstreamOutcome::Success { body, .. } => body@,
        UpstreamOutcome::UpstreamError { status_text, .. } => upstream_error_body(status_text@),
        UpstreamOutcome::TransportFailure { description } => transport_failure_body(description@),
    }
}

/// The caller-visible result of handling one request: an HTTP status code
/// and a text body.
pub struct CallerResponse {
    pub status: u16,
    pub body: String,
}

/// Translates a classified upstream outcome into the caller-visible
/// response. This one routine serves all eight routes unchanged.
pub fn relay(o: UpstreamOutcome) -> (r: CallerResponse)
    ensures
        r.status as int == relay_status(o),
        r.body@ == relay_body(o),
{
    match o {
        UpstreamOutcome::Success { status: _, body } => CallerResponse { status: 200, body },
        UpstreamOutcome::UpstreamError { status, status_text } => CallerResponse {
            status,
            body: String::from_str("Errore Brawl Stars: ").concat(status_text.as_str()),
        },
        UpstreamOutcome::TransportFailure { description } => CallerResponse {
            status: 502,
            body: String::from_str("Errore reqwest: ").concat(description.as_str()),
        },
    }
}

/// Law: on every route, a successful upstream response passes through.
/// Whatever 2xx status and body the upstream returned, classification and
/// relaying yield exactly status 200 and the upstream body, byte for byte.
pub proof fn lemma_success_passes_body_through(status: u16, status_text: String, body: String)
    requires
        is_success_status(status as int),
    ensures
        relay_status(classify_spec(status, status_text, body)) == 200,
        relay_body(classify_spec(status, status_text, body)) == body@,
{
}

/// Law: on every route, a non-2xx upstream response is mirrored. The caller
/// sees the upstream's own status code, and the body is exactly the literal
/// `Errore Brawl Stars: ` followed by the upstream status text; the
/// upstream's own error body is discarded.
pub proof fn lemma_upstream_error_mirrors_status(status: u16, status_text: String, body: String)
    requires
        !is_success_status(status as int),
    ensures
        relay_status(classify_spec(status, status_text, body)) == status as int,
        relay_body(classify_spec(status, status_text, body)) == "Errore Brawl Stars: "@
            + status_text@,
{
}

/// Law: on every route, a transport failure yields 502, and the body
/// contains the failure's description: after the fixed prefix of 16
/// characters, the body is the description itself.
pub proof fn lemma_transport_failure_is_bad_gateway(description: String)
    ensures
        relay_status(UpstreamOutcome::TransportFailure { description }) == 502,
        relay_body(UpstreamOutcome::TransportFailure { description }).len() == 16
            + description@.len(),
        relay_body(UpstreamOutcome::TransportFailure { description }).skip(16) == description@,
{
    reveal_strlit("Errore reqwest: ");
    assert(transport_failure_body(description@).skip(16) =~= description@);
}

} // verus!
