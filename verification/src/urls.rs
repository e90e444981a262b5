//! Trusted boundary to the `url` crate: parsing and joining URLs.
//!
//! A `url::Url` is opaque to the verifier; its text is named by
//! [`url_chars`], and what parsing and joining return is named by
//! [`url_parse`] and [`url_join`] — both are functions of their string
//! arguments alone.

use vstd::prelude::*;

verus! {

#[verifier::external_type_specification]
#[verifier::external_body]
pub struct ExUrl(url::Url);

/// The text of a parsed URL, as `url::Url::as_str` returns it.
pub uninterp spec fn url_chars(u: url::Url) -> Seq<char>;

/// What `url::Url::parse` returns on the given text: the text of the parsed
/// (normalized) URL, or nothing when the text is not a valid URL.
pub uninterp spec fn url_parse(s: Seq<char>) -> Option<Seq<char>>;

/// What `url::Url::join` returns: the text of the joined URL, as a function
/// of the base URL's text and the input, or nothing when the two do not join
/// into a valid URL.
pub uninterp spec fn url_join(base: Seq<char>, input: Seq<char>) -> Option<Seq<char>>;

/// Relies on url::Url::parse: parses the text into a URL, deterministically.
#[verifier::external_body]
pub(crate) fn parse_url(s: &str) -> (r: Result<url::Url, String>)
    ensures
        r is Ok <==> url_parse(s@) is Some,
        r matches Ok(u) ==> url_chars(u) == url_parse(s@)->0,
{
    url::Url::parse(s).map_err(|e| e.to_string())
}

/// Relies on url::Url::join: resolves `input` against the base URL,
/// deterministically in the base URL's text and the input.
#[verifier::external_body]
pub(crate) fn join_url(base: &url::Url, input: &str) -> (r: Result<url::Url, String>)
    ensures
        r is Ok <==> url_join(url_chars(*base), input@) is Some,
        r matches Ok(u) ==> url_chars(u) == url_join(url_chars(*base), input@)->0,
{
    base.join(input).map_err(|e| e.to_string())
}

/// Relies on url::Url::parse accepting `https://www.printavo.com`, a
/// well-formed absolute URL.
#[verifier::external_body]
pub(crate) fn default_base_url() -> (u: url::Url)
    ensures
        url_chars(u) == url_parse("https://www.printavo.com"@)->0,
{
    url::Url::parse("https://www.printavo.com").unwrap()
}

/// Relies on url::Url::as_str: the URL's text.
#[verifier::external_body]
pub(crate) fn url_string(u: &url::Url) -> (r: String)
    ensures
        r@ == url_chars(*u),
{
    u.as_str().to_owned()
}

} // verus!
