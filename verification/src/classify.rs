use vstd::prelude::*;
use vstd::string::StringExecFns;
use crate::error::ResolveError;
use crate::fetch::plan_download;
use crate::fetch::plan_for;
use crate::fetch::plan_matches;
use crate::fetch::DownloadPlan;
use crate::fetch::Planned;
use crate::parsed::parse_url;
use crate::parsed::url_host;
use crate::parsed::url_parses;

verus! {

/// Where a pipe reference points.
#[derive(Debug, Clone, Copy, PartialEq, Eq, Structural)]
pub enum SourceKind {
    /// The reference parses as an absolute URL that names a host.
    Remote,
    /// Anything else: a path on this machine.
    Local,
}

/// What the caller has to do next for a pipe reference.
#[derive(Debug, Clone)]
pub enum Step {
    /// Make the path absolute and check that it exists.
    Canonicalize { path: String },
    /// Fetch the URL of the plan and store the body under its extension.
    Download { plan: DownloadPlan },
}

/// The kind of a reference: remote exactly where it parses as a URL and the
/// URL names a host. A text with a scheme and no host, such as a drive
/// letter before a path, is a local path.
pub open spec fn kind_of(input: Seq<char>) -> SourceKind {
    if url_parses(input) && url_host(input) is Some {
        SourceKind::Remote
    } else {
        SourceKind::Local
    }
}

/// Tells a URL from a local path. No text is turned away here: what is no
/// URL with a host is taken for a path.
pub fn classify(input: &str) -> (r: SourceKind)
    ensures
        r == kind_of(input@),
{
    match parse_url(input) {
        Ok(parts) => {
            if parts.host.is_some() {
                SourceKind::Remote
            } else {
                SourceKind::Local
            }
        },
        Err(_) => SourceKind::Local,
    }
}

/// The first step of resolving a reference: a local path goes to be
/// canonicalized, untouched; a URL gets its download planned, or is refused
/// before anything is requested.
pub fn first_step(input: &str) -> (r: Result<Step, ResolveError>)
    ensures
        kind_of(input@) == SourceKind::Local ==> (r matches Ok(Step::Canonicalize { path })
            && path@ == input@),
        kind_of(input@) == SourceKind::Remote ==> match plan_for(input@) {
            Planned::Fetch { source, raw_url, extension } => r matches Ok(Step::Download { plan })
                && plan.source@ == source && plan.raw_url@ == raw_url && plan.extension@
                == extension,
            other => r is Err && plan_matches(Err(r->Err_0), other),
        },
{
    match classify(input) {
        SourceKind::Local => Ok(Step::Canonicalize { path: String::from_str(input) }),
        SourceKind::Remote => {
            match plan_download(input) {
                Ok(plan) => Ok(Step::Download { plan }),
                Err(e) => Err(e),
            }
        },
    }
}

/// The outcome for a local path, given what canonicalizing it came to: the
/// absolute path, or an error that names the path as it was given and the
/// cause.
pub fn local_source(path: &str, canonical: Result<String, String>) -> (r: Result<
    String,
    ResolveError,
>)
    ensures
        match canonical {
            Ok(absolute) => r matches Ok(p) && p@ == absolute@,
            Err(cause) => r matches Err(ResolveError::PathResolution { path: p, cause: c })
                && p@ == path@ && c@ == cause@,
        },
{
    match canonical {
        Ok(absolute) => Ok(absolute),
        Err(cause) => Err(ResolveError::PathResolution { path: String::from_str(path), cause }),
    }
}

/// A text that is no URL, or a URL without a host, is never planned as a
/// download and never refused: its first step is to canonicalize it.
pub proof fn lemma_hostless_is_local(input: Seq<char>)
    requires
        !url_parses(input) || url_host(input).is_none(),
    ensures
        kind_of(input) == SourceKind::Local,
{
}

} // verus!
