use vstd::prelude::*;
use vstd::string::StringExecFns;

use crate::error::RequestError;

verus! {

#[verifier::external_type_specification]
#[verifier::external_body]
pub struct ExUrl(url::Url);

#[verifier::external_type_specification]
#[verifier::external_body]
pub struct ExUrlParseError(url::ParseError);

/// What `url::Url::parse` gives for the text: the parsed URL, or `None`
/// when it refuses the text.
pub uninterp spec fn parsed_url(s: Seq<char>) -> Option<url::Url>;

/// Whether the URL can take path segments (is not cannot-be-a-base).
pub uninterp spec fn can_be_base(u: url::Url) -> bool;

/// The URL with `segment` appended, percent-encoded, as one path segment.
pub uninterp spec fn with_segment(u: url::Url, segment: Seq<char>) -> url::Url;

/// Relies on `url::Url::parse`, which depends on the text alone.
#[verifier::external_body]
fn parse_url(s: &str) -> (r: Result<url::Url, url::ParseError>)
    ensures
        r is Ok <==> parsed_url(s@) is Some,
        r matches Ok(u) ==> parsed_url(s@) == Some(u),
{
    url::Url::parse(s)
}

/// Relies on `url::Url::path_segments_mut`, which refuses a cannot-be-a-base
/// URL, and `PathSegmentsMut::push`, which appends one segment.
#[verifier::external_body]
fn push_segment(u: &mut url::Url, segment: &str) -> (r: bool)
    ensures
        r == can_be_base(*old(u)),
        r ==> *final(u) == with_segment(*old(u), segment@),
        !r ==> *final(u) == *old(u),
{
    match u.path_segments_mut() {
        Ok(mut segments) => {
            segments.push(segment);
            true
        },
        Err(()) => false,
    }
}

/// The origin text for a connection: scheme, `://`, then host (with port).
pub open spec fn origin_text(scheme: Seq<char>, host: Seq<char>) -> Seq<char> {
    scheme + seq![':', '/', '/'] + host
}

/// The externally visible base URL of a connection, from the scheme it was
/// made with and the host it addressed (a proxy's forwarded host included).
pub fn base_url(scheme: &str, host: &str) -> (r: Result<url::Url, RequestError>)
    ensures
        match r {
            Ok(u) => parsed_url(origin_text(scheme@, host@)) == Some(u),
            Err(e) => parsed_url(origin_text(scheme@, host@)) is None && e
                == RequestError::InvalidBaseUrl,
        },
{
    let mut text = scheme.to_owned();
    text.append("://");
    text.append(host);
    proof {
        reveal_strlit("://");
        assert(text@ =~= origin_text(scheme@, host@));
    }
    match parse_url(text.as_str()) {
        Ok(u) => Ok(u),
        Err(_) => Err(RequestError::InvalidBaseUrl),
    }
}

/// The issuer URL of tenant `name` for a connection: the origin parsed,
/// with `name` appended as one path segment.
pub open spec fn resolved_issuer(scheme: Seq<char>, host: Seq<char>, name: Seq<char>) -> Result<
    url::Url,
    RequestError,
> {
    match parsed_url(origin_text(scheme, host)) {
        None => Err(RequestError::InvalidBaseUrl),
        Some(b) => if can_be_base(b) {
            Ok(with_segment(b, name))
        } else {
            Err(RequestError::CannotBeABase)
        },
    }
}

/// The issuer URL of tenant `name`: the base URL with `name` appended as one
/// path segment.
pub fn issuer_url(scheme: &str, host: &str, name: &str) -> (r: Result<url::Url, RequestError>)
    ensures
        r == resolved_issuer(scheme@, host@, name@),
{
    let mut u = match base_url(scheme, host) {
        Ok(u) => u,
        Err(e) => return Err(e),
    };
    if push_segment(&mut u, name) {
        Ok(u)
    } else {
        Err(RequestError::CannotBeABase)
    }
}

} // verus!
