//! What the engine reads out of URLs and response headers before it commits to
//! a download.

use crate::utils::text::{contains, occurs_in, same_text, starts_with};
use vstd::prelude::*;

verus! {

/// How many redirects a probe follows before it gives up.
pub const REDIRECT_LIMIT: usize = 5;

/// The scheme of `input` read as an absolute URL, lower-cased and without the
/// colon; `None` where `input` is no absolute URL.
pub uninterp spec fn url_scheme(input: Seq<char>) -> Option<Seq<char>>;

/// `Url::parse` of the `url` crate, as `reqwest` hands it on, followed by
/// `Url::scheme` on what it parsed. The result is that of the parser and of
/// nothing else: the same text always gives the same scheme, or none.
#[verifier::external_body]
pub(crate) fn parse_scheme(input: &str) -> (scheme: Option<String>)
    ensures
        scheme.deep_view() == url_scheme(input@),
{
    reqwest::Url::parse(input).ok().map(|url| url.scheme().to_string())
}

/// Whether a scheme is one that the engine fetches from.
pub open spec fn is_web_scheme(scheme: Option<Seq<char>>) -> bool {
    scheme == Some("http"@) || scheme == Some("https"@)
}

/// Whether a scheme is one that the engine fetches from: `http` or `https`.
pub fn scheme_is_web(scheme: &Option<String>) -> (web: bool)
    ensures
        web == is_web_scheme(scheme.deep_view()),
{
    match scheme {
        Some(name) => same_text(name.as_str(), "http") || same_text(name.as_str(), "https"),
        None => false,
    }
}

/// Whether `input` is an absolute URL at all, so that a request can be made
/// of it.
pub fn is_absolute_url(input: &str) -> (absolute: bool)
    ensures
        absolute == (url_scheme(input@) is Some),
{
    parse_scheme(input).is_some()
}

/// Whether a content type is text or script, which is shown and not
/// downloaded: anything under `text/`, and the three application types that
/// browsers render.
pub open spec fn is_text_like(content_type: Seq<char>) -> bool {
    ||| "text/"@.is_prefix_of(content_type)
    ||| content_type == "application/javascript"@
    ||| content_type == "application/json"@
    ||| content_type == "application/xml"@
}

/// How a response classifies, by its `Content-Type` and
/// `Content-Disposition`: a content type that is not text-like makes it
/// downloadable under that type; failing that, a disposition that mentions
/// `attachment` makes it downloadable under the marker `attachment`; anything
/// else is not downloadable.
pub open spec fn downloadable_content_type(
    content_type: Option<Seq<char>>,
    content_disposition: Option<Seq<char>>,
) -> Option<Seq<char>> {
    if content_type is Some && !is_text_like(content_type->0) {
        content_type
    } else if content_disposition is Some && occurs_in("attachment"@, content_disposition->0) {
        Some("attachment"@)
    } else {
        None
    }
}

/// Whether a content type is text or script.
pub fn text_like(content_type: &str) -> (text: bool)
    ensures
        text == is_text_like(content_type@),
{
    starts_with(content_type, "text/") || same_text(content_type, "application/javascript")
        || same_text(content_type, "application/json") || same_text(
        content_type,
        "application/xml",
    )
}

/// Classifies a response by the two header fields, each given as sent or
/// `None` where the response has none.
pub fn get_downloadable_content_type(
    content_type: Option<&str>,
    content_disposition: Option<&str>,
) -> (kind: Option<String>)
    ensures
        kind.deep_view() == downloadable_content_type(
            content_type.deep_view(),
            content_disposition.deep_view(),
        ),
{
    match content_type {
        Some(name) => {
            if !text_like(name) {
                return Some(String::from_str(name));
            }
        },
        None => {},
    }
    match content_disposition {
        Some(disposition) => {
            if contains(disposition, "attachment") {
                return Some(String::from_str("attachment"));
            }
        },
        None => {},
    }
    None
}

} // verus!
