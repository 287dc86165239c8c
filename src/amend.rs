use vstd::prelude::*;

use crate::error::RequestError;
use crate::urls::{issuer_url, resolved_issuer};

verus! {

#[verifier::external_type_specification]
#[verifier::external_body]
pub struct ExValue(serde_json::Value);

/// What `serde_json::from_str::<Value>` gives for the text: the parsed
/// value, or `None` when it refuses the text.
pub uninterp spec fn json_value_of(s: Seq<char>) -> Option<serde_json::Value>;

/// The members of a JSON object by key, as `serde_json::Value::get` finds
/// them; empty for anything but an object.
pub uninterp spec fn members(v: serde_json::Value) -> Map<Seq<char>, serde_json::Value>;

/// What `serde_json::Value::as_str` gives: the text of a JSON string, `None`
/// for any other value.
pub uninterp spec fn string_of(v: serde_json::Value) -> Option<Seq<char>>;

/// The text of the member `key` of `v`, when that member is a string.
pub open spec fn member_text(v: serde_json::Value, key: Seq<char>) -> Option<Seq<char>> {
    if members(v).contains_key(key) {
        string_of(members(v)[key])
    } else {
        None
    }
}

/// Relies on `serde_json::from_str::<serde_json::Value>`, which depends on
/// the text alone; an empty text is no JSON value.
#[verifier::external_body]
fn parse_json(s: &str) -> (r: Option<serde_json::Value>)
    ensures
        r == json_value_of(s@),
        s@.len() == 0 ==> r is None,
{
    serde_json::from_str::<serde_json::Value>(s).ok()
}

/// Relies on `serde_json::Value::get` with a string key and
/// `serde_json::Value::as_str`: the member `key` of an object, when it is a
/// string.
#[verifier::external_body]
fn str_member(v: &serde_json::Value, key: &str) -> (r: Option<String>)
    ensures
        match r {
            Some(t) => member_text(*v, key@) == Some(t@),
            None => member_text(*v, key@) is None,
        },
{
    v.get(key).and_then(serde_json::Value::as_str).map(String::from)
}

/// Relies on `IndexMut<&str>` of `serde_json::Value` and
/// `serde_json::Value::String`: on an object, the member `key` is set to the
/// string `value`, inserted or overwritten, and the other members stay as
/// they were. Only an object has members.
#[verifier::external_body]
fn set_str_member(v: &mut serde_json::Value, key: &str, value: String)
    requires
        exists|k: Seq<char>| members(*old(v)).contains_key(k),
    ensures
        members(*final(v)).dom() == members(*old(v)).dom().insert(key@),
        members(*final(v)).remove(key@) == members(*old(v)).remove(key@),
        string_of(members(*final(v))[key@]) == Some(value@),
{
    v[key] = serde_json::Value::String(value);
}

/// What the amendment made of a token response.
pub enum Amended {
    /// The response is returned as it came, byte for byte.
    Unchanged,
    /// The response body is replaced by this JSON value.
    Replaced(serde_json::Value),
}

/// The member that marks a body as a token response.
pub open spec fn access_token_key() -> Seq<char> {
    "access_token"@
}

/// The member that carries the identity assertion.
pub open spec fn id_token_key() -> Seq<char> {
    "id_token"@
}

/// Whether `value` is a token response: an object with a string
/// `access_token`.
pub open spec fn is_token_response(value: serde_json::Value) -> bool {
    member_text(value, access_token_key()) is Some
}

/// `v` is `value` with its `id_token` member set to the string `token`:
/// every other member is kept as it was, and nothing else is added.
pub open spec fn with_id_token(value: serde_json::Value, v: serde_json::Value, token: Seq<char>) -> bool {
    &&& members(v).dom() == members(value).dom().insert(id_token_key())
    &&& members(v).remove(id_token_key()) == members(value).remove(id_token_key())
    &&& string_of(members(v)[id_token_key()]) == Some(token)
}

/// What amending the parsed body `value` with an assertion minted by `mint`
/// for `issuer` gives: the body unchanged when it is no token response;
/// otherwise the body with `id_token` set to the minted assertion, or the
/// signer's failure.
pub open spec fn amended_with<F: Fn(&url::Url) -> Result<String, String>>(
    value: serde_json::Value,
    issuer: url::Url,
    mint: F,
    r: Result<Amended, RequestError>,
) -> bool {
    if !is_token_response(value) {
        r matches Ok(Amended::Unchanged)
    } else {
        match r {
            Ok(Amended::Replaced(v)) => exists|t: String|
                #[trigger] mint.ensures((&issuer,), Ok::<String, String>(t)) && with_id_token(
                    value,
                    v,
                    t@,
                ),
            Err(RequestError::Generic(m)) => mint.ensures((&issuer,), Err::<String, String>(m)),
            _ => false,
        }
    }
}

/// What amending a token response whose body is `body` gives, for tenant
/// `name` on a connection with `scheme` and `host`: unchanged unless the
/// body parses to a token response; then the issuer URL's failure, or the
/// amendment with an assertion minted for that URL.
pub open spec fn amend_body_outcome<F: Fn(&url::Url) -> Result<String, String>>(
    body: Option<Seq<char>>,
    scheme: Seq<char>,
    host: Seq<char>,
    name: Seq<char>,
    mint: F,
    r: Result<Amended, RequestError>,
) -> bool {
    match body {
        None => r matches Ok(Amended::Unchanged),
        Some(b) => match json_value_of(b) {
            None => r matches Ok(Amended::Unchanged),
            Some(v) => if !is_token_response(v) {
                r matches Ok(Amended::Unchanged)
            } else {
                match resolved_issuer(scheme, host, name) {
                    Err(e) => r == Err::<Amended, RequestError>(e),
                    Ok(u) => amended_with(v, u, mint, r),
                }
            },
        },
    }
}

/// Whether the parsed token response `value` has a string `access_token`.
pub fn has_access_token(value: &serde_json::Value) -> (r: bool)
    ensures
        r == is_token_response(*value),
{
    proof {
        reveal_strlit("access_token");
    }
    str_member(value, "access_token").is_some()
}

/// Adds to the parsed token response `value`, when it holds a string
/// `access_token`, an `id_token` minted by `mint` for `issuer`; an earlier
/// `id_token` is overwritten.
pub fn amend_value<F: Fn(&url::Url) -> Result<String, String>>(
    value: serde_json::Value,
    issuer: &url::Url,
    mint: F,
) -> (r: Result<Amended, RequestError>)
    requires
        mint.requires((issuer,)),
    ensures
        amended_with(value, *issuer, mint, r),
{
    if !has_access_token(&value) {
        return Ok(Amended::Unchanged);
    }
    let mut amended = value;
    match mint(issuer) {
        Ok(token) => {
            let ghost t = token;
            set_str_member(&mut amended, "id_token", token);
            proof {
                reveal_strlit("id_token");
                assert(with_id_token(value, amended, t@));
            }
            Ok(Amended::Replaced(amended))
        },
        Err(m) => Err(RequestError::Generic(m)),
    }
}

/// Amends a successful token response whose body is `body`. A body that is
/// absent, no JSON, or no token response is left unchanged. Otherwise the
/// issuer URL of tenant `name` is resolved from the connection's `scheme`
/// and `host`, failing the request when it cannot be, and the body is
/// amended with an assertion minted for that URL, as `amend_value` does.
pub fn amend_id_token<F: Fn(&url::Url) -> Result<String, String>>(
    body: Option<&str>,
    scheme: &str,
    host: &str,
    name: &str,
    mint: F,
) -> (r: Result<Amended, RequestError>)
    requires
        forall|u: url::Url| #[trigger] mint.requires((&u,)),
    ensures
        amend_body_outcome(
            match body {
                Some(b) => Some(b@),
                None => None,
            },
            scheme@,
            host@,
            name@,
            mint,
            r,
        ),
        body matches Some(b) && b@.len() == 0 ==> r matches Ok(Amended::Unchanged),
{
    let text = match body {
        Some(t) => t,
        None => return Ok(Amended::Unchanged),
    };
    let value = match parse_json(text) {
        Some(v) => v,
        None => return Ok(Amended::Unchanged),
    };
    if !has_access_token(&value) {
        return Ok(Amended::Unchanged);
    }
    match issuer_url(scheme, host, name) {
        Ok(u) => amend_value(value, &u, mint),
        Err(e) => Err(e),
    }
}

/// A token response that the amendment replaced keeps its string
/// `access_token` and every other member, and holds an `id_token` that the
/// signer minted for the issuer URL it was given.
pub proof fn lemma_replaced_body_holds_both_tokens<F: Fn(&url::Url) -> Result<String, String>>(
    value: serde_json::Value,
    issuer: url::Url,
    mint: F,
    v: serde_json::Value,
)
    requires
        amended_with(value, issuer, mint, Ok(Amended::Replaced(v))),
    ensures
        is_token_response(v),
        members(v)[access_token_key()] == members(value)[access_token_key()],
        forall|k: Seq<char>|
            k != id_token_key() && #[trigger] members(value).contains_key(k) ==> members(
                v,
            ).contains_key(k) && members(v)[k] == members(value)[k],
        exists|t: String|
            #[trigger] mint.ensures((&issuer,), Ok::<String, String>(t)) && string_of(
                members(v)[id_token_key()],
            ) == Some(t@),
{
    reveal_strlit("access_token");
    reveal_strlit("id_token");
    assert(access_token_key() != id_token_key()) by {
        assert(access_token_key()[0] != id_token_key()[0]);
    }
    assert(members(v).remove(id_token_key()).contains_key(access_token_key()));
    assert forall|k: Seq<char>|
        k != id_token_key() && #[trigger] members(value).contains_key(k) implies members(
            v,
        ).contains_key(k) && members(v)[k] == members(value)[k] by {
        assert(members(value).remove(id_token_key()).contains_key(k));
        assert(members(v).remove(id_token_key())[k] == members(value).remove(id_token_key())[k]);
    }
}

/// Amending an amended token response again, for the same issuer, changes
/// nothing but the `id_token`: both bodies agree on every other member, and
/// both assertions were minted for that issuer.
pub proof fn lemma_amend_twice<F: Fn(&url::Url) -> Result<String, String>>(
    value: serde_json::Value,
    issuer: url::Url,
    mint: F,
    v1: serde_json::Value,
    v2: serde_json::Value,
)
    requires
        amended_with(value, issuer, mint, Ok(Amended::Replaced(v1))),
        amended_with(v1, issuer, mint, Ok(Amended::Replaced(v2))),
    ensures
        members(v2).dom() == members(v1).dom(),
        members(v2).remove(id_token_key()) == members(v1).remove(id_token_key()),
        exists|t: String|
            #[trigger] mint.ensures((&issuer,), Ok::<String, String>(t)) && string_of(
                members(v2)[id_token_key()],
            ) == Some(t@),
{
    assert(members(v1).dom().insert(id_token_key()) =~= members(v1).dom());
}

} // verus!
