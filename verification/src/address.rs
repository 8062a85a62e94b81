//! Whether a text is an address that a webview can be pointed at.

use vstd::prelude::*;

verus! {

/// What `url::Url::parse` has against `text`: nothing where it parses as an
/// absolute URL, else the parser's description of the error.
pub uninterp spec fn url_rejection(text: Seq<char>) -> Option<Seq<char>>;

/// Whether `text` parses as an absolute URL.
pub open spec fn is_url(text: Seq<char>) -> bool {
    url_rejection(text) is None
}

/// The characters of an optional text.
pub open spec fn text_of(text: Option<String>) -> Option<Seq<char>> {
    match text {
        Some(t) => Some(t@),
        None => None,
    }
}

/// Calls `url::Url::parse` and keeps what it has against `text`: `None` where
/// the text parses, else the error, written out by its `Display`.
#[verifier::external_body]
pub(crate) fn parse_rejection(text: &str) -> (rejection: Option<String>)
    ensures
        text_of(rejection) == url_rejection(text@),
{
    match url::Url::parse(text) {
        Ok(_) => None,
        Err(e) => Some(e.to_string()),
    }
}

} // verus!
