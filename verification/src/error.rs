use vstd::prelude::*;
use vstd::string::StringExecFns;

verus! {

/// Why a pipe reference could not be resolved. One variant per stage, each
/// with the input it failed on and the cause as text.
#[derive(Debug, Clone)]
pub enum ResolveError {
    /// The local path does not exist or cannot be made absolute.
    PathResolution { path: String, cause: String },
    /// The text does not parse as an absolute URL.
    MalformedUrl { input: String, cause: String },
    /// The URL parses, but its host is not the raw-content host.
    UnsupportedSource { url: String },
    /// The request failed, was answered with a non-success status, or the
    /// body could not be read as text. `input` is the URL as it was given,
    /// `url` the one that was asked for.
    Fetch { input: String, url: String, status: Option<u16>, detail: String },
    /// The temporary file could not be created, written or renamed.
    Persistence { cause: String },
}

/// What is said to the user when a host is turned away.
pub open spec fn unsupported_text() -> Seq<char> {
    "Only public GitHub URLs or raw.githubusercontent.com URLs are supported"@
}

impl ResolveError {
    /// The text of the message, as `message` builds it.
    pub open spec fn message_text(&self) -> Seq<char> {
        match self {
            ResolveError::PathResolution { path, cause } => "Failed to canonicalize path "@ + path@
                + ": "@ + cause@,
            ResolveError::MalformedUrl { input, cause } => "Malformed URL "@ + input@ + ": "@
                + cause@,
            ResolveError::UnsupportedSource { url } => unsupported_text() + ": "@ + url@,
            ResolveError::Fetch { input, url, status, detail } => "Failed to fetch "@ + input@
                + " from "@ + url@ + ": "@ + detail@,
            ResolveError::Persistence { cause } => "Failed to store the pipe: "@ + cause@,
        }
    }

    /// One line for a log or a terminal: the stage, the input and the cause.
    pub fn message(&self) -> (r: String)
        ensures
            r@ == self.message_text(),
    {
        match self {
            ResolveError::PathResolution { path, cause } => {
                let mut out = String::from_str("Failed to canonicalize path ");
                out.append(path.as_str());
                out.append(": ");
                out.append(cause.as_str());
                out
            },
            ResolveError::MalformedUrl { input, cause } => {
                let mut out = String::from_str("Malformed URL ");
                out.append(input.as_str());
                out.append(": ");
                out.append(cause.as_str());
                out
            },
            ResolveError::UnsupportedSource { url } => {
                let mut out = String::from_str(
                    "Only public GitHub URLs or raw.githubusercontent.com URLs are supported",
                );
                out.append(": ");
                out.append(url.as_str());
                out
            },
            ResolveError::Fetch { input, url, status: _, detail } => {
                let mut out = String::from_str("Failed to fetch ");
                out.append(input.as_str());
                out.append(" from ");
                out.append(url.as_str());
                out.append(": ");
                out.append(detail.as_str());
                out
            },
            ResolveError::Persistence { cause } => {
                let mut out = String::from_str("Failed to store the pipe: ");
                out.append(cause.as_str());
                out
            },
        }
    }
}

} // verus!
