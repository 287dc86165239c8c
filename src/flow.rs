use vstd::prelude::*;

verus! {

/// The two ways the token endpoint can answer a request.
#[derive(Debug, Clone, Copy, PartialEq, Eq, Structural)]
pub enum GrantFlow {
    /// `grant_type=client_credentials`: a machine-to-machine grant.
    ClientCredentials,
    /// Authorization-code exchange, refresh and anything else.
    Generic,
}

/// The subject that interactive flows are granted to.
pub const PLACEHOLDER_SUBJECT: &'static str = "Marvin";

/// The flow for a request whose unique `grant_type` parameter is `grant_type`
/// (`None` when the parameter is absent or given more than once).
pub open spec fn flow_for(grant_type: Option<Seq<char>>) -> GrantFlow {
    match grant_type {
        Some(g) => if g == "client_credentials"@ {
            GrantFlow::ClientCredentials
        } else {
            GrantFlow::Generic
        },
        None => GrantFlow::Generic,
    }
}

/// Whether a successful response of `flow` gets an id_token.
pub open spec fn carries_id_token(flow: GrantFlow) -> bool {
    flow == GrantFlow::Generic
}

/// Who a grant of `flow` is made out to.
pub open spec fn subject_for(flow: GrantFlow, client_id: Seq<char>) -> Seq<char> {
    match flow {
        GrantFlow::ClientCredentials => client_id,
        GrantFlow::Generic => PLACEHOLDER_SUBJECT@,
    }
}

/// Picks the flow from the request's `grant_type` parameter.
pub fn select_flow(grant_type: Option<&str>) -> (r: GrantFlow)
    ensures
        r == flow_for(
            match grant_type {
                Some(g) => Some(g@),
                None => None,
            },
        ),
{
    match grant_type {
        Some(g) => {
            let given = g.to_owned();
            let expected = "client_credentials".to_owned();
            if given == expected {
                GrantFlow::ClientCredentials
            } else {
                GrantFlow::Generic
            }
        },
        None => GrantFlow::Generic,
    }
}

/// The consent decision of `flow`: always granted, to the placeholder
/// subject for interactive flows and to the requesting client itself for
/// client credentials.
pub fn consent_subject(flow: GrantFlow, client_id: &str) -> (r: String)
    ensures
        r@ == subject_for(flow, client_id@),
{
    match flow {
        GrantFlow::ClientCredentials => client_id.to_owned(),
        GrantFlow::Generic => PLACEHOLDER_SUBJECT.to_owned(),
    }
}

/// Whether a successful token response of `flow` is amended with an id_token.
pub fn amends_response(flow: GrantFlow) -> (r: bool)
    ensures
        r == carries_id_token(flow),
{
    match flow {
        GrantFlow::ClientCredentials => false,
        GrantFlow::Generic => true,
    }
}

/// A client-credentials request is granted to the requesting client and its
/// response never gets an id_token.
pub proof fn lemma_client_credentials_flow(client_id: Seq<char>)
    ensures
        flow_for(Some("client_credentials"@)) == GrantFlow::ClientCredentials,
        !carries_id_token(flow_for(Some("client_credentials"@))),
        subject_for(flow_for(Some("client_credentials"@)), client_id) == client_id,
{
}

/// Every request that is not a client-credentials request, including one
/// without a unique `grant_type`, is granted to the placeholder subject and
/// gets an id_token.
pub proof fn lemma_generic_flow(grant_type: Option<Seq<char>>, client_id: Seq<char>)
    requires
        grant_type != Some("client_credentials"@),
    ensures
        flow_for(grant_type) == GrantFlow::Generic,
        carries_id_token(flow_for(grant_type)),
        subject_for(flow_for(grant_type), client_id) == PLACEHOLDER_SUBJECT@,
{
}

} // verus!
