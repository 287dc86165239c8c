use vstd::prelude::*;
use vstd::string::StringExecFns;

use crate::error::RequestError;
use crate::flow::{consent_subject, flow_for, select_flow, GrantFlow, PLACEHOLDER_SUBJECT};
use crate::server::ServerState;
use crate::urls::{issuer_url, resolved_issuer};

verus! {

/// The text that names tenant `name`.
pub open spec fn index_text(name: Seq<char>) -> Seq<char> {
    "Issuer: "@ + name
}

/// The liveness answer for tenant `name`: a text naming it.
pub fn index<T>(state: &ServerState<T>, name: &str) -> (r: Result<String, RequestError>)
    requires
        state.wf(),
    ensures
        r is Ok <==> state.spec_issuers().names().contains(name@),
        r matches Ok(s) ==> s@ == index_text(name@),
        r matches Err(e) ==> e matches RequestError::UnknownIssuer(n) && n@ == name@,
{
    match state.lookup(name) {
        Ok(_) => {
            let mut text = "Issuer: ".to_owned();
            text.append(name);
            Ok(text)
        },
        Err(e) => Err(e),
    }
}

/// What the discovery document of tenant `name` is built from: its record
/// and its issuer URL for this connection. An unknown tenant is not found,
/// whatever the connection.
pub fn discovery<'a, T>(state: &'a ServerState<T>, scheme: &str, host: &str, name: &str) -> (r:
    Result<(url::Url, &'a T), RequestError>)
    requires
        state.wf(),
    ensures
        !state.spec_issuers().names().contains(name@) ==> (r matches Err(
            RequestError::UnknownIssuer(n),
        ) && n@ == name@),
        state.spec_issuers().names().contains(name@) ==> match resolved_issuer(
            scheme@,
            host@,
            name@,
        ) {
            Ok(u) => (r matches Ok((v, t)) && v == u && state.spec_issuers().maps_to(name@, *t)),
            Err(e) => (r matches Err(f) && f == e),
        },
{
    let t = match state.lookup(name) {
        Ok(t) => t,
        Err(e) => return Err(e),
    };
    match issuer_url(scheme, host, name) {
        Ok(u) => Ok((u, t)),
        Err(e) => Err(e),
    }
}

/// The tenant whose public keys are exported.
pub fn keys<'a, T>(state: &'a ServerState<T>, name: &str) -> (r: Result<&'a T, RequestError>)
    requires
        state.wf(),
    ensures
        r is Ok <==> state.spec_issuers().names().contains(name@),
        r matches Ok(t) ==> state.spec_issuers().maps_to(name@, *t),
        r matches Err(e) ==> e matches RequestError::UnknownIssuer(n) && n@ == name@,
{
    state.lookup(name)
}

/// The tenant whose userinfo claims are answered.
pub fn userinfo_get<'a, T>(state: &'a ServerState<T>, name: &str) -> (r: Result<
    &'a T,
    RequestError,
>)
    requires
        state.wf(),
    ensures
        r is Ok <==> state.spec_issuers().names().contains(name@),
        r matches Ok(t) ==> state.spec_issuers().maps_to(name@, *t),
        r matches Err(e) ==> e matches RequestError::UnknownIssuer(n) && n@ == name@,
{
    state.lookup(name)
}

/// The tenant an authorization request goes to, and the subject its
/// consent is granted to: the placeholder subject of interactive flows.
pub fn auth_get<'a, T>(state: &'a ServerState<T>, name: &str) -> (r: Result<
    (&'a T, String),
    RequestError,
>)
    requires
        state.wf(),
    ensures
        r is Ok <==> state.spec_issuers().names().contains(name@),
        r matches Ok((t, s)) ==> state.spec_issuers().maps_to(name@, *t)
            && s@ == PLACEHOLDER_SUBJECT@,
        r matches Err(e) ==> e matches RequestError::UnknownIssuer(n) && n@ == name@,
{
    match state.lookup(name) {
        Ok(t) => Ok((t, consent_subject(GrantFlow::Generic, ""))),
        Err(e) => Err(e),
    }
}

/// The tenant a token request goes to, and the flow chosen from the
/// request's unique `grant_type` parameter.
pub fn token<'a, T>(state: &'a ServerState<T>, name: &str, grant_type: Option<&str>) -> (r: Result<
    (&'a T, GrantFlow),
    RequestError,
>)
    requires
        state.wf(),
    ensures
        r is Ok <==> state.spec_issuers().names().contains(name@),
        r matches Ok((t, f)) ==> state.spec_issuers().maps_to(name@, *t) && f == flow_for(
            match grant_type {
                Some(g) => Some(g@),
                None => None,
            },
        ),
        r matches Err(e) ==> e matches RequestError::UnknownIssuer(n) && n@ == name@,
{
    match state.lookup(name) {
        Ok(t) => Ok((t, select_flow(grant_type))),
        Err(e) => Err(e),
    }
}

} // verus!
