//! Endpoint URL checks. Parsing is done by `reqwest::Url`; what the checks
//! read of the parsed URL (its scheme and host) is carried as plain text.

use vstd::prelude::*;
use crate::error::{NetworkError, NetworkErrorView};

verus! {

/// What the endpoint checks read of a parsed URL.
#[derive(Debug, PartialEq, Eq)]
pub struct ParsedUrl {
    /// The scheme, without the `':'`.
    pub scheme: String,
    /// The host, where the URL has one.
    pub host: Option<String>,
}

/// The view of an optional text.
pub open spec fn opt_text(o: Option<String>) -> Option<Seq<char>> {
    match o {
        Some(s) => Some(s@),
        None => None,
    }
}

/// What `reqwest::Url::parse` makes of `input`: on success the URL's scheme and
/// host, on failure the parse error's message.
pub uninterp spec fn url_parse_outcome(input: Seq<char>) -> Result<(Seq<char>, Option<Seq<char>>), Seq<char>>;

/// The view of a parse result.
pub open spec fn parsed_view(p: Result<ParsedUrl, String>) -> Result<(Seq<char>, Option<Seq<char>>), Seq<char>> {
    match p {
        Ok(u) => Ok((u.scheme@, opt_text(u.host))),
        Err(reason) => Err(reason@),
    }
}

/// Parses `input` as an absolute URL with `reqwest::Url::parse` (that is,
/// `url::Url::parse`) and hands back the URL's `scheme()` and `host_str()`, or
/// the `Display` text of the `ParseError`. The contract claims only that the
/// result is the named outcome of parsing `input`.
#[verifier::external_body]
pub(crate) fn parse_url(input: &str) -> (r: Result<ParsedUrl, String>)
    ensures
        parsed_view(r) == url_parse_outcome(input@),
{
    match reqwest::Url::parse(input) {
        Ok(u) => Ok(ParsedUrl { scheme: u.scheme().to_string(), host: u.host_str().map(|h| h.to_string()) }),
        Err(e) => Err(e.to_string()),
    }
}

/// The schemes an endpoint may use.
pub open spec fn is_web_scheme(scheme: Seq<char>) -> bool {
    scheme == seq!['h', 't', 't', 'p'] || scheme == seq!['h', 't', 't', 'p', 's']
}

/// The verdict on an endpoint `url` under `label`, given what parsing made of it.
pub open spec fn parsed_url_outcome(
    label: Seq<char>,
    url: Seq<char>,
    parsed: Result<(Seq<char>, Option<Seq<char>>), Seq<char>>,
) -> Result<(), NetworkErrorView> {
    match parsed {
        Err(reason) => Err(NetworkErrorView::InvalidUrl { label, url, reason }),
        Ok((scheme, host)) => if !is_web_scheme(scheme) {
            Err(NetworkErrorView::UnsupportedScheme { label, scheme })
        } else if host is None {
            Err(NetworkErrorView::MissingHost { label })
        } else {
            Ok(())
        },
    }
}

/// Whether `s` is `"http"` or `"https"`.
fn is_web_scheme_str(s: &str) -> (r: bool)
    ensures
        r == is_web_scheme(s@),
{
    let n = s.unicode_len();
    if n != 4 && n != 5 {
        return false;
    }
    if s.get_char(0) != 'h' || s.get_char(1) != 't' || s.get_char(2) != 't' || s.get_char(3) != 'p' {
        return false;
    }
    if n == 4 {
        assert(s@ =~= seq!['h', 't', 't', 'p']);
        true
    } else if s.get_char(4) == 's' {
        assert(s@ =~= seq!['h', 't', 't', 'p', 's']);
        true
    } else {
        false
    }
}

/// Judges the endpoint `url` under `label` from what parsing made of it: a parse
/// failure is `InvalidUrl`, a scheme other than `http`/`https` is
/// `UnsupportedScheme`, a URL without host is `MissingHost`, anything else passes.
pub fn check_parsed_url(label: &str, url: &str, parsed: Result<ParsedUrl, String>) -> (r: Result<(), NetworkError>)
    ensures
        crate::error::unit_outcome(r) == parsed_url_outcome(label@, url@, parsed_view(parsed)),
{
    match parsed {
        Err(reason) => Err(NetworkError::InvalidUrl {
            label: String::from_str(label),
            url: String::from_str(url),
            reason,
        }),
        Ok(u) => {
            if !is_web_scheme_str(u.scheme.as_str()) {
                Err(NetworkError::UnsupportedScheme { label: String::from_str(label), scheme: u.scheme })
            } else if u.host.is_none() {
                Err(NetworkError::MissingHost { label: String::from_str(label) })
            } else {
                Ok(())
            }
        },
    }
}

} // verus!
