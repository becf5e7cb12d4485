use vstd::prelude::*;
use crate::error::{BrokerError, ErrorModel};

verus! {

/// The ASCII serialization of the origin of `s` as the URL standard parses
/// it, or `None` where `s` does not parse as an absolute URL.
pub uninterp spec fn url_origin(s: Seq<char>) -> Option<Seq<char>>;

/// The serialization of `s` as the URL standard parses and normalizes it.
pub uninterp spec fn url_href(s: Seq<char>) -> Seq<char>;

/// Relies on `url::Url::parse`, `Url::as_str` and
/// `Origin::ascii_serialization` of the `url` crate: parses `s` and returns
/// its normalized serialization and its origin, or `None` where it does not
/// parse.
#[verifier::external_body]
fn parse_url(s: &str) -> (r: Option<(String, String)>)
    ensures
        match r {
            Some((href, origin)) => url_origin(s@) == Some(origin@) && href@ == url_href(s@),
            None => url_origin(s@) is None,
        },
{
    match url::Url::parse(s) {
        Ok(u) => Some((u.as_str().to_owned(), u.origin().ascii_serialization())),
        Err(_) => None,
    }
}

/// A parsed redirect URI of a relying party, with its origin.
pub struct RedirectUri {
    /// The normalized serialization of the URI.
    pub uri: String,
    pub origin: String,
}

/// The message of the error for a redirect URI that does not parse.
pub open spec fn bad_redirect_uri_msg() -> Seq<char> {
    "redirect_uri is not a valid absolute URL"@
}

/// Parses a relying party's redirect URI and takes its origin.
pub fn parse_redirect_uri(uri: &str) -> (r: Result<RedirectUri, BrokerError>)
    ensures
        match r {
            Ok(ru) => url_origin(uri@) == Some(ru.origin@) && ru.uri@ == url_href(uri@),
            Err(e) => url_origin(uri@) is None && e@ == ErrorModel::Input(bad_redirect_uri_msg()),
        },
{
    match parse_url(uri) {
        Some((href, origin)) => Ok(RedirectUri { uri: href, origin }),
        None => Err(BrokerError::Input("redirect_uri is not a valid absolute URL".to_owned())),
    }
}

} // verus!
