//! Validation of the address of the remote store: a URL whose scheme is
//! `http` or `https` and whose path is the root.
use vstd::prelude::*;
use crate::error::ClientError;

verus! {

/// The parts of a parsed URL that validation reads.
#[derive(Debug, Clone, PartialEq, Eq)]
pub struct UrlParts {
    pub scheme: String,
    pub path: String,
}

/// The scheme and path that the URL parser gives for a text, or `None`
/// where the text is not a URL.
pub uninterp spec fn parsed_url(s: Seq<char>) -> Option<(Seq<char>, Seq<char>)>;

/// Relies on `url::Url::parse`, with `Url::scheme` and `Url::path` on its
/// result: whether the text is a URL, and its scheme and path, depend on the
/// text alone.
#[verifier::external_body]
fn parse_url(address: &str) -> (r: Result<UrlParts, String>)
    ensures
        r is Ok <==> parsed_url(address@) is Some,
        r matches Ok(u) ==> parsed_url(address@) == Some((u.scheme@, u.path@)),
{
    match url::Url::parse(address) {
        Ok(u) => Ok(UrlParts { scheme: u.scheme().to_string(), path: u.path().to_string() }),
        Err(e) => Err(e.to_string()),
    }
}

pub open spec fn scheme_allowed(scheme: Seq<char>) -> bool {
    scheme == "http"@ || scheme == "https"@
}

pub open spec fn parts_valid(scheme: Seq<char>, path: Seq<char>) -> bool {
    scheme_allowed(scheme) && path == "/"@
}

/// The address is a URL with an accepted scheme and the root path.
pub open spec fn address_valid(address: Seq<char>) -> bool {
    match parsed_url(address) {
        Some((scheme, path)) => parts_valid(scheme, path),
        None => false,
    }
}

pub open spec fn scheme_reason(scheme: Seq<char>) -> Seq<char> {
    "unexpected scheme, expected http or https, got '"@ + scheme + "'"@
}

pub open spec fn path_reason(path: Seq<char>) -> Seq<char> {
    "unexpected path, expected '/', got '"@ + path + "'"@
}

pub open spec fn parse_reason(detail: Seq<char>) -> Seq<char> {
    "not a URL: "@ + detail
}

/// `reason` says why `address` was refused: the parser's complaint where it
/// is no URL, else what is wrong with its scheme or path.
pub open spec fn rejection_explained(address: Seq<char>, reason: Seq<char>) -> bool {
    match parsed_url(address) {
        Some((scheme, path)) => Some(reason) == parts_verdict(scheme, path),
        None => exists|detail: Seq<char>| reason == parse_reason(detail),
    }
}

/// The verdict on the scheme and path of a parsed URL: the scheme is checked
/// first, then the path.
pub open spec fn parts_verdict(scheme: Seq<char>, path: Seq<char>) -> Option<Seq<char>> {
    if !scheme_allowed(scheme) {
        Some(scheme_reason(scheme))
    } else if path != "/"@ {
        Some(path_reason(path))
    } else {
        None
    }
}

fn quoted(head: &str, s: &String) -> (r: String)
    ensures
        r@ == head@ + s@ + "'"@,
{
    String::from_str(head).concat(s.as_str()).concat("'")
}

/// Checks the scheme and path of a parsed URL. On rejection the error gives
/// the offending scheme or path.
pub fn check_url_parts(parts: &UrlParts) -> (r: Result<(), ClientError>)
    ensures
        r is Ok <==> parts_valid(parts.scheme@, parts.path@),
        r matches Err(e) ==> (e matches ClientError::InvalidAddress(m) && Some(m@) == parts_verdict(
            parts.scheme@,
            parts.path@,
        )),
{
    let http = String::from_str("http");
    let https = String::from_str("https");
    let root = String::from_str("/");
    if !(parts.scheme == http || parts.scheme == https) {
        return Err(
            ClientError::InvalidAddress(
                quoted("unexpected scheme, expected http or https, got '", &parts.scheme),
            ),
        );
    }
    if parts.path != root {
        return Err(
            ClientError::InvalidAddress(quoted("unexpected path, expected '/', got '", &parts.path)),
        );
    }
    Ok(())
}

/// Checks that `address` is a URL whose scheme is `http` or `https` and
/// whose path is `/`.
pub fn validate(address: &str) -> (r: Result<(), ClientError>)
    ensures
        r is Ok <==> address_valid(address@),
        r matches Err(e) ==> (e matches ClientError::InvalidAddress(m) && rejection_explained(
            address@,
            m@,
        )),
{
    match parse_url(address) {
        Ok(parts) => check_url_parts(&parts),
        Err(detail) => {
            let m = String::from_str("not a URL: ").concat(detail.as_str());
            assert(m@ == parse_reason(detail@));
            Err(ClientError::InvalidAddress(m))
        },
    }
}

} // verus!
