use vstd::prelude::*;
use vstd::string::StringExecFns;
use crate::error::ResolveError;
use crate::extension::extension_for;
use crate::extension::script_extension;
use crate::normalize::normalize_parts;
use crate::normalize::normalized;
use crate::parsed::parse_error_text;
use crate::parsed::parse_url;
use crate::parsed::url_host;
use crate::parsed::url_parses;
use crate::parsed::url_path_segments;
use crate::parsed::UrlParts;

verus! {

/// What to fetch and how to store it.
#[derive(Debug, Clone)]
pub struct DownloadPlan {
    /// The URL as it was given.
    pub source: String,
    /// The raw-content URL for the GET request.
    pub raw_url: String,
    /// The extension of the file to be written, without the dot.
    pub extension: String,
}

/// What planning a download comes to, as plain text.
pub enum Planned {
    /// The text, or the URL it was rewritten to, is no URL.
    Malformed { input: Seq<char> },
    /// The URL to fetch is not on the raw-content host.
    Unsupported { url: Seq<char> },
    /// Fetch `raw_url` and store it under `extension`; `source` is the URL
    /// as it was given.
    Fetch { source: Seq<char>, raw_url: Seq<char>, extension: Seq<char> },
}

/// Only this host is fetched from.
pub open spec fn is_trusted_host(host: Option<Seq<char>>) -> bool {
    host == Some("raw.githubusercontent.com"@)
}

/// The plan for a pipe given as a URL: rewrite, then admit the raw-content
/// host alone, and take the extension from the URL as it was given.
pub open spec fn plan_for(url: Seq<char>) -> Planned {
    if !url_parses(url) {
        Planned::Malformed { input: url }
    } else if !url_parses(normalized(url)) {
        Planned::Malformed { input: normalized(url) }
    } else if !is_trusted_host(url_host(normalized(url))) {
        Planned::Unsupported { url: normalized(url) }
    } else {
        Planned::Fetch {
            source: url,
            raw_url: normalized(url),
            extension: extension_for(url_path_segments(url)),
        }
    }
}

/// `r` is the outcome `planned`, in the library's own types.
pub open spec fn plan_matches(r: Result<DownloadPlan, ResolveError>, planned: Planned) -> bool {
    match planned {
        Planned::Malformed { input } => r matches Err(ResolveError::MalformedUrl { input: i, .. })
            && i@ == input,
        Planned::Unsupported { url } => r matches Err(ResolveError::UnsupportedSource { url: u })
            && u@ == url,
        Planned::Fetch { source, raw_url, extension } => r matches Ok(plan) && plan.source@
            == source && plan.raw_url@ == raw_url && plan.extension@ == extension,
    }
}

/// A status of the 2xx class.
pub open spec fn is_success(status: u16) -> bool {
    200 <= status <= 299
}

/// Admits a URL for fetching where its host, as parsed, is the raw-content
/// host, and turns any other away.
pub fn validate_host(raw_url: String, parts: &UrlParts) -> (r: Result<String, ResolveError>)
    ensures
        is_trusted_host(parts.host_view()) ==> (r matches Ok(u) && u@ == raw_url@),
        !is_trusted_host(parts.host_view()) ==> (r matches Err(
            ResolveError::UnsupportedSource { url },
        ) && url@ == raw_url@),
{
    let trusted = String::from_str("raw.githubusercontent.com");
    match &parts.host {
        Some(host) => {
            if *host == trusted {
                Ok(raw_url)
            } else {
                Err(ResolveError::UnsupportedSource { url: raw_url })
            }
        },
        None => Err(ResolveError::UnsupportedSource { url: raw_url }),
    }
}

/// Decides, without any request made, what to fetch for a URL and under
/// which extension to store it, or why nothing is fetched.
pub fn plan_download(url: &str) -> (r: Result<DownloadPlan, ResolveError>)
    ensures
        plan_matches(r, plan_for(url@)),
{
    let parts = match parse_url(url) {
        Ok(parts) => parts,
        Err(e) => {
            return Err(
                ResolveError::MalformedUrl {
                    input: String::from_str(url),
                    cause: parse_error_text(&e),
                },
            );
        },
    };
    let raw = normalize_parts(url, &parts);
    let raw_parts = match parse_url(raw.as_str()) {
        Ok(raw_parts) => raw_parts,
        Err(e) => {
            return Err(ResolveError::MalformedUrl { input: raw, cause: parse_error_text(&e) });
        },
    };
    let raw_url = validate_host(raw, &raw_parts)?;
    Ok(DownloadPlan { source: String::from_str(url), raw_url, extension: script_extension(&parts) })
}

/// Judges what came back from the GET request of a plan: the body of an
/// answer with a success status is the script; anything else is a failed
/// fetch that carries the URL as it was given, the URL that was asked for,
/// the status, and the body or the reason why the body could not be read as
/// text.
pub fn accept_response(plan: &DownloadPlan, status: u16, body: Result<String, String>) -> (r:
    Result<String, ResolveError>)
    ensures
        is_success(status) && body is Ok ==> (r matches Ok(text) && text@ == body->Ok_0@),
        !(is_success(status) && body is Ok) ==> (r matches Err(
            ResolveError::Fetch { input, url, status: s, detail },
        ) && input@ == plan.source@ && url@ == plan.raw_url@ && s == Some(status) && detail@ == (
        match body {
            Ok(text) => text@,
            Err(cause) => cause@,
        })),
{
    match body {
        Ok(text) => {
            if 200 <= status && status <= 299 {
                Ok(text)
            } else {
                Err(
                    ResolveError::Fetch {
                        input: String::from_str(plan.source.as_str()),
                        url: String::from_str(plan.raw_url.as_str()),
                        status: Some(status),
                        detail: text,
                    },
                )
            }
        },
        Err(cause) => Err(
            ResolveError::Fetch {
                input: String::from_str(plan.source.as_str()),
                url: String::from_str(plan.raw_url.as_str()),
                status: Some(status),
                detail: cause,
            },
        ),
    }
}

/// The error for a request that got no answer at all: a failed fetch
/// without a status, with the URL as it was given, the URL that was asked
/// for, and the cause.
pub fn transport_failure(plan: &DownloadPlan, cause: String) -> (r: ResolveError)
    ensures
        r matches ResolveError::Fetch { input, url, status, detail } && input@ == plan.source@
            && url@ == plan.raw_url@ && status.is_none() && detail@ == cause@,
{
    ResolveError::Fetch {
        input: String::from_str(plan.source.as_str()),
        url: String::from_str(plan.raw_url.as_str()),
        status: None,
        detail: cause,
    }
}

/// Where both the URL and what it is rewritten to parse, the URL is refused
/// as unsupported exactly when the host of the rewritten URL is not the
/// raw-content host, and planned for fetching exactly when it is.
pub proof fn lemma_unsupported_exactly(url: Seq<char>)
    requires
        url_parses(url),
        url_parses(normalized(url)),
    ensures
        plan_for(url) is Unsupported <==> !is_trusted_host(url_host(normalized(url))),
        plan_for(url) is Fetch <==> is_trusted_host(url_host(normalized(url))),
{
}

/// A URL on a host other than `github.com` and the raw-content host is
/// refused as it stands: planning ends there, and there is nothing to
/// request.
pub proof fn lemma_foreign_host_refused(url: Seq<char>)
    requires
        url_parses(url),
        url_host(url) != Some("github.com"@),
        url_host(url) != Some("raw.githubusercontent.com"@),
    ensures
        plan_for(url) == (Planned::Unsupported { url }),
{
}

/// A URL on the raw-content host is fetched as it stands.
pub proof fn lemma_raw_host_planned(url: Seq<char>)
    requires
        url_parses(url),
        url_host(url) == Some("raw.githubusercontent.com"@),
    ensures
        plan_for(url) == (Planned::Fetch {
            source: url,
            raw_url: url,
            extension: extension_for(url_path_segments(url)),
        }),
{
    crate::normalize::lemma_raw_host_unchanged(url);
}

} // verus!
