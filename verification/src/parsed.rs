use vstd::prelude::*;
use url::ParseError;
use url::Url;

verus! {

/// The error of the `url` crate's parser, carried through as it comes.
#[verifier::external_type_specification]
#[verifier::external_body]
pub struct ExParseError(ParseError);

/// Whether `url::Url::parse` accepts the text as an absolute URL.
pub uninterp spec fn url_parses(text: Seq<char>) -> bool;

/// What `url::Url::host_str` gives for the URL parsed from the text.
pub uninterp spec fn url_host(text: Seq<char>) -> Option<Seq<char>>;

/// What `url::Url::path_segments` gives, in order, for the URL parsed from
/// the text: the pieces of the path between its slashes, or `None` where the
/// path does not begin with a slash.
pub uninterp spec fn url_path_segments(text: Seq<char>) -> Option<Seq<Seq<char>>>;

/// The two things that resolution reads from a parsed URL.
#[derive(Debug, Clone)]
pub struct UrlParts {
    /// The host as text, where the URL has one.
    pub host: Option<String>,
    /// The segments of the path, between the slashes; `None` where the path
    /// does not begin with a slash.
    pub segments: Option<Vec<String>>,
}

/// The segments as sequences of characters.
pub open spec fn segment_views(segments: Seq<String>) -> Seq<Seq<char>> {
    Seq::new(segments.len(), |i: int| segments[i]@)
}

impl UrlParts {
    /// The host as a sequence of characters.
    pub open spec fn host_view(&self) -> Option<Seq<char>> {
        match self.host {
            Some(h) => Some(h@),
            None => None,
        }
    }

    /// The path as a sequence of segments, each a sequence of characters.
    pub open spec fn segments_view(&self) -> Option<Seq<Seq<char>>> {
        match self.segments {
            Some(v) => Some(segment_views(v@)),
            None => None,
        }
    }
}

/// Calls `url::Url::parse` on the text and, where it succeeds, `host_str` and
/// `path_segments` on the URL, copying what they give into `UrlParts`.
/// Believed, not proved: the call succeeds exactly where `url_parses` says,
/// and the parts are what `url_host` and `url_path_segments` name. Nothing is
/// claimed of which texts parse, nor of what their host or segments are.
#[verifier::external_body]
pub(crate) fn parse_url(text: &str) -> (r: Result<UrlParts, ParseError>)
    ensures
        r is Ok <==> url_parses(text@),
        r matches Ok(parts) ==> parts.host_view() == url_host(text@),
        r matches Ok(parts) ==> parts.segments_view() == url_path_segments(text@),
{
    match Url::parse(text) {
        Ok(url) => Ok(
            UrlParts {
                host: url.host_str().map(|h| h.to_string()),
                segments: url.path_segments().map(|it| it.map(|s| s.to_string()).collect()),
            },
        ),
        Err(e) => Err(e),
    }
}

/// The `Display` text of the `url` crate's parse error. Nothing is claimed
/// of it.
#[verifier::external_body]
pub(crate) fn parse_error_text(e: &ParseError) -> (r: String) {
    e.to_string()
}

} // verus!
