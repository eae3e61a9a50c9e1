//! Validation of shortcut URLs.
use vstd::prelude::*;
use vstd::string::StringExecFns;

use crate::data_plane::error::{string_result_view, DataPlaneError, DataPlaneResult, ErrorKind};
use crate::text::{contains_placeholder, has_placeholder};

verus! {

/// What `url::Url::parse` makes of a text.
#[derive(Debug, Clone, PartialEq, Eq)]
pub enum UrlParseOutcome {
    /// An absolute URL with this (lower-case) scheme.
    Absolute { scheme: String },
    /// A relative URL, which needs a base to resolve against.
    RelativeWithoutBase,
    /// Not a URL; the message says why.
    Invalid { message: String },
}

/// What `url::Url::parse` makes of a text.
pub uninterp spec fn url_parse_outcome(text: Seq<char>) -> UrlParseOutcome;

/// Calls `url::Url::parse`, and of its result keeps the scheme, or the kind of error
/// and its message.
///
/// Claimed: the outcome is a function of the text alone. The URL grammar is not stated.
#[verifier::external_body]
pub(crate) fn parse_url(text: &str) -> (outcome: UrlParseOutcome)
    ensures
        outcome == url_parse_outcome(text@),
{
    match url::Url::parse(text) {
        Ok(parsed) => UrlParseOutcome::Absolute { scheme: parsed.scheme().to_string() },
        Err(url::ParseError::RelativeUrlWithoutBase) => UrlParseOutcome::RelativeWithoutBase,
        Err(err) => UrlParseOutcome::Invalid { message: err.to_string() },
    }
}

/// The validated form of a URL, given what parsing it gives: an `http` or `https`
/// URL is kept as it is, a URL without a scheme gets `https://` in front, any other
/// scheme or parse error is an invalid URL.
pub open spec fn validated_url(raw: Seq<char>, outcome: UrlParseOutcome) -> Result<Seq<char>, (ErrorKind, Seq<char>)> {
    match outcome {
        UrlParseOutcome::Absolute { scheme } => if scheme@ == "http"@ || scheme@ == "https"@ {
            Ok(raw)
        } else {
            Err((ErrorKind::InvalidUrl, "invalid scheme "@ + scheme@))
        },
        UrlParseOutcome::RelativeWithoutBase => Ok("https://"@ + raw),
        UrlParseOutcome::Invalid { message } => Err((ErrorKind::InvalidUrl, message@)),
    }
}

fn is_http_scheme(scheme: &String) -> (http: bool)
    ensures
        http == (scheme@ == "http"@ || scheme@ == "https"@),
{
    proof {
        reveal_strlit("http");
        reveal_strlit("https");
    }
    let n = scheme.as_str().unicode_len();
    if n != 4 && n != 5 {
        return false;
    }
    let s = scheme.as_str();
    let starts = s.get_char(0) == 'h' && s.get_char(1) == 't' && s.get_char(2) == 't' && s.get_char(3) == 'p';
    if n == 4 {
        assert(starts ==> scheme@ =~= "http"@);
        starts
    } else {
        let http = starts && s.get_char(4) == 's';
        assert(http ==> scheme@ =~= "https"@);
        http
    }
}

/// Validate a URL, given what `url::Url::parse` made of it.
///
/// A URL with the `http` or `https` scheme is kept as it is; a URL without a scheme
/// gets `https://` in front; any other scheme, and any URL that does not parse, is
/// an invalid URL.
pub fn validate_parsed_url(raw_url: &str, outcome: UrlParseOutcome) -> (validated: DataPlaneResult<String>)
    ensures
        string_result_view(validated) == validated_url(raw_url@, outcome),
{
    match outcome {
        UrlParseOutcome::Absolute { scheme } => {
            if is_http_scheme(&scheme) {
                Ok(String::from_str(raw_url))
            } else {
                let mut message = String::from_str("invalid scheme ");
                message.append(scheme.as_str());
                Err(DataPlaneError::InvalidUrl { message })
            }
        },
        UrlParseOutcome::RelativeWithoutBase => {
            let mut url = String::from_str("https://");
            url.append(raw_url);
            Ok(url)
        },
        UrlParseOutcome::Invalid { message } => Err(DataPlaneError::InvalidUrl { message }),
    }
}

/// Validate a URL.
///
/// The URL must parse _and_ point to a network location with the `http` or `https`
/// scheme. If no scheme is provided, `https` is assumed.
///
/// Returns the URL, with the scheme added if needed.
pub fn validate_url(raw_url: &str) -> (validated: DataPlaneResult<String>)
    ensures
        string_result_view(validated) == validated_url(raw_url@, url_parse_outcome(raw_url@)),
{
    let outcome = parse_url(raw_url);
    validate_parsed_url(raw_url, outcome)
}

/// The number of positional parameters of a URL: `1` when the placeholder `{}`
/// occurs anywhere in it, otherwise `0`.
pub open spec fn num_params_of(url: Seq<char>) -> i32 {
    if has_placeholder(url) {
        1
    } else {
        0
    }
}

/// Parse the number of positional parameters from a URL.
///
/// A URL can have at most one positional parameter, the placeholder `{}`.
pub fn gen_num_params_from_url(url: &str) -> (num_params: i32)
    ensures
        num_params == num_params_of(url@),
{
    if contains_placeholder(url) {
        1
    } else {
        0
    }
}

} // verus!
