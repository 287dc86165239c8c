use vstd::prelude::*;

verus! {

/// Claims carried by an access token.
#[derive(Clone, Debug, PartialEq, Eq)]
pub struct AccessTokenClaims {
    /// The party the token was issued to.
    pub azp: Option<String>,
    /// When the end user authenticated, in seconds since the epoch.
    pub auth_time: Option<i64>,
    /// Space-separated scopes; empty when none were granted.
    pub scope: String,
}

} // verus!
