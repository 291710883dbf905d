//! Bearer-token credential: construction (directly or from an environment
//! lookup made by the caller) and rendering of the two headers every API
//! call carries.

use vstd::prelude::*;

verus! {

/// A bearer token for the API, stored verbatim.
#[derive(Clone)]
pub struct AuthToken(pub String);

/// Error for a credential that could not be found in the environment.
#[derive(Clone, Copy, Debug, PartialEq, Eq, Structural)]
pub enum EnvVarError {
    /// The environment variable was not present (or unusable as a string).
    NotPresent,
}

impl AuthToken {
    /// Stores the given token verbatim.
    pub fn new(token: String) -> (r: Self)
        ensures
            r.0@ == token@,
    {
        AuthToken(token)
    }

    /// Builds a token from the result of an environment lookup: the caller
    /// reads the variable and hands over `Some(value)` or `None`.
    /// Succeeds with the exact value if and only if the variable was present.
    pub fn from_env_value(value: Option<String>) -> (r: Result<Self, EnvVarError>)
        ensures
            match value {
                Some(s) => r matches Ok(t) && t.0@ == s@,
                None => r matches Err(e) && e == EnvVarError::NotPresent,
            },
    {
        match value {
            Some(s) => Ok(AuthToken(s)),
            None => Err(EnvVarError::NotPresent),
        }
    }

    /// The stored token, verbatim.
    pub fn as_str(&self) -> (r: &str)
        ensures
            r@ == self.0@,
    {
        self.0.as_str()
    }
}

/// The two headers every API call carries.
pub struct AuthHeaders {
    /// Authorization header value, `token <token>`.
    pub authorization: String,
    /// Accept header value, the fixed API media type.
    pub accept: String,
}

/// Renders the authorization and accept header values for a token: the
/// authorization value is exactly the literal `token ` followed by the
/// token, and the accept value is the fixed API media type.
pub fn build_auth_headers(token: &str) -> (r: AuthHeaders)
    ensures
        r.authorization@ == "token "@ + token@,
        r.accept@ == "application/vnd.github.v3+json"@,
{
    let mut authorization = String::from_str("token ");
    authorization.append(token);
    AuthHeaders { authorization, accept: String::from_str("application/vnd.github.v3+json") }
}

} // verus!
