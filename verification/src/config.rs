//! Gateway configuration: the bearer credential.
//!
//! The one configuration value is the bearer token for the upstream API,
//! read from the process environment under `BRAWLSTARS_TOKEN`. A missing or
//! empty token is a configuration error, and without a `Config` value no
//! upstream request can be prepared, so misconfiguration fails every route
//! deterministically, before any forwarding.

use vstd::prelude::*;

verus! {

/// Why configuration loading failed.
#[derive(Debug, Clone, Copy, PartialEq, Eq, Structural)]
pub enum ConfigError {
    /// The environment held no token at all.
    Missing,
    /// The environment held an empty token.
    Empty,
}

/// The validated gateway configuration. A value of this type always holds a
/// nonempty bearer credential.
pub struct Config {
    token: String,
}

/// The value sent upstream in the `Authorization` header for a credential.
pub open spec fn bearer_header_value(token: Seq<char>) -> Seq<char> {
    "Bearer "@ + token
}

impl Config {
    /// The credential this configuration holds.
    pub closed spec fn token_view(&self) -> Seq<char> {
        self.token@
    }

    /// Invariant: the credential is nonempty. Marked as a type invariant,
    /// so no `Config` can ever be built around an empty credential.
    #[verifier::type_invariant]
    pub closed spec fn wf(&self) -> bool {
        self.token@.len() > 0
    }

    /// Validates the token read from the process environment. Succeeds
    /// exactly when a nonempty token was present, and says which way it was
    /// absent otherwise.
    pub fn from_env_token(token: Option<String>) -> (r: Result<Config, ConfigError>)
        ensures
            r is Err <==> (token is None || token.unwrap()@.len() == 0),
            match r {
                Ok(c) => token is Some && c.token_view() == token.unwrap()@ && c.wf(),
                Err(e) => e == (if token is None {
                    ConfigError::Missing
                } else {
                    ConfigError::Empty
                }),
            },
    {
        match token {
            None => Err(ConfigError::Missing),
            Some(t) => {
                if t.as_str().is_empty() {
                    Err(ConfigError::Empty)
                } else {
                    Ok(Config { token: t })
                }
            },
        }
    }

    /// The `Authorization` header value for the outbound upstream call:
    /// the literal `Bearer ` followed by the credential.
    pub fn auth_header(&self) -> (r: String)
        ensures
            r@ == bearer_header_value(self.token_view()),
    {
        String::from_str("Bearer ").concat(self.token.as_str())
    }
}

/// Law: misconfiguration prevents all forwarding. A configuration value can
/// only be obtained from a nonempty token, so whatever route is requested,
/// a gateway without a credential has no `Config` to prepare an upstream
/// request from; and every well-formed `Config` carries a nonempty
/// credential into the `Authorization` header, whose value properly extends
/// the literal `Bearer `.
pub proof fn lemma_config_credential_nonempty(c: &Config)
    requires
        c.wf(),
    ensures
        c.token_view().len() > 0,
        bearer_header_value(c.token_view()).len() > 7,
{
    reveal_strlit("Bearer ");
}

} // verus!
