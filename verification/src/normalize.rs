use vstd::prelude::*;
use vstd::string::StringExecFns;
use crate::error::ResolveError;
use crate::parsed::parse_error_text;
use crate::parsed::parse_url;
use crate::parsed::segment_views;
use crate::parsed::url_host;
use crate::parsed::url_parses;
use crate::parsed::url_path_segments;
use crate::parsed::UrlParts;

verus! {

/// The segments written one after the other with a slash between each two.
pub open spec fn join_segments(parts: Seq<Seq<char>>) -> Seq<char>
    decreases parts.len(),
{
    if parts.len() == 0 {
        Seq::empty()
    } else if parts.len() == 1 {
        parts[0]
    } else {
        join_segments(parts.drop_last()) + "/"@ + parts.last()
    }
}

/// The raw-content URL of a file in a repository at a branch.
pub open spec fn raw_url(
    owner: Seq<char>,
    repo: Seq<char>,
    branch: Seq<char>,
    rest: Seq<Seq<char>>,
) -> Seq<char> {
    "https://raw.githubusercontent.com/"@ + owner + "/"@ + repo + "/"@ + branch + "/"@
        + join_segments(rest)
}

/// A page of the GitHub site that names a branch: the host is `github.com`
/// and the path has an owner, a repository, a marker and a branch.
pub open spec fn is_github_page(host: Option<Seq<char>>, segments: Option<Seq<Seq<char>>>) -> bool {
    &&& host == Some("github.com"@)
    &&& segments matches Some(s) && s.len() >= 4
}

/// The URL to fetch for a URL with the given host and path: the raw-content
/// URL for a GitHub page, where the marker that stands third is left out, and
/// the text itself for anything else.
pub open spec fn normalized_from(
    url: Seq<char>,
    host: Option<Seq<char>>,
    segments: Option<Seq<Seq<char>>>,
) -> Seq<char> {
    if is_github_page(host, segments) {
        let s = segments->0;
        raw_url(s[0], s[1], s[3], s.subrange(4, s.len() as int))
    } else {
        url
    }
}

/// The URL to fetch for a text that parses as a URL.
pub open spec fn normalized(url: Seq<char>) -> Seq<char> {
    normalized_from(url, url_host(url), url_path_segments(url))
}

/// Writes the segments from the fifth on behind `out`, with slashes between.
fn append_rest(out: &mut String, segments: &Vec<String>)
    requires
        segments.len() >= 4,
    ensures
        final(out)@ == old(out)@ + join_segments(
            segment_views(segments@).subrange(4, segments.len() as int),
        ),
{
    let ghost views = segment_views(segments@);
    let ghost start = out@;
    let mut i: usize = 4;
    proof {
        assert(views.subrange(4, 4).len() == 0);
        assert(start + join_segments(views.subrange(4, 4)) =~= start);
    }
    while i < segments.len()
        invariant
            4 <= i <= segments.len(),
            views == segment_views(segments@),
            out@ == start + join_segments(views.subrange(4, i as int)),
        decreases segments.len() - i,
    {
        let ghost before = views.subrange(4, i as int);
        let ghost after = views.subrange(4, i + 1);
        proof {
            assert(after.drop_last() =~= before);
            assert(after.last() == segments@[i as int]@);
        }
        if i > 4 {
            out.append("/");
            proof {
                assert(after.len() >= 2);
                assert(start + join_segments(before) + "/"@ + after.last() =~= start + (
                join_segments(before) + "/"@ + after.last()));
            }
        } else {
            proof {
                assert(after.len() == 1);
                assert(before.len() == 0);
                assert(start + join_segments(before) + after.last() =~= start + after[0]);
            }
        }
        out.append(segments[i].as_str());
        i += 1;
    }
    proof {
        assert(views.subrange(4, i as int) == views.subrange(4, segments.len() as int));
    }
}

/// Rewrites a GitHub page URL to the raw-content URL behind it, given the
/// host and path that the text parses to. Any other URL comes back as it is.
pub fn normalize_parts(url: &str, parts: &UrlParts) -> (r: String)
    ensures
        r@ == normalized_from(url@, parts.host_view(), parts.segments_view()),
{
    let github = String::from_str("github.com");
    match (&parts.host, &parts.segments) {
        (Some(host), Some(segments)) => {
            if *host == github && segments.len() >= 4 {
                let mut out = String::from_str("https://raw.githubusercontent.com/");
                out.append(segments[0].as_str());
                out.append("/");
                out.append(segments[1].as_str());
                out.append("/");
                out.append(segments[3].as_str());
                out.append("/");
                append_rest(&mut out, segments);
                out
            } else {
                String::from_str(url)
            }
        },
        _ => String::from_str(url),
    }
}

/// Parses the text and rewrites it where it is a GitHub page URL. Fails only
/// where the text is no URL.
pub fn get_raw_github_url(url: &str) -> (r: Result<String, ResolveError>)
    ensures
        url_parses(url@) ==> (r matches Ok(raw) && raw@ == normalized(url@)),
        !url_parses(url@) ==> (r matches Err(ResolveError::MalformedUrl { input, .. })
            && input@ == url@),
{
    match parse_url(url) {
        Ok(parts) => Ok(normalize_parts(url, &parts)),
        Err(e) => Err(
            ResolveError::MalformedUrl { input: String::from_str(url), cause: parse_error_text(&e) },
        ),
    }
}

/// A URL whose host is not `github.com` is fetched as it stands.
pub proof fn lemma_other_host_unchanged(
    url: Seq<char>,
    host: Option<Seq<char>>,
    segments: Option<Seq<Seq<char>>>,
)
    requires
        host != Some("github.com"@),
    ensures
        normalized_from(url, host, segments) == url,
{
}

/// A URL that is already on the raw-content host is left as it is, so
/// rewriting it a second time gives what the first time gave.
pub proof fn lemma_raw_host_unchanged(url: Seq<char>)
    requires
        url_host(url) == Some("raw.githubusercontent.com"@),
    ensures
        normalized(url) == url,
        normalized(normalized(url)) == normalized(url),
{
    reveal_strlit("raw.githubusercontent.com");
    reveal_strlit("github.com");
    assert("raw.githubusercontent.com"@.len() != "github.com"@.len());
}

/// Rewriting a second time changes nothing more wherever the parser does
/// not find the host `github.com` in what the first time gave. That covers
/// every URL that is no GitHub page, and every GitHub page whose raw-content
/// URL parses with the raw-content host.
pub proof fn lemma_normalized_twice(url: Seq<char>)
    requires
        url_host(normalized(url)) != Some("github.com"@),
    ensures
        normalized(normalized(url)) == normalized(url),
{
}

/// A URL that is no GitHub page is left as it is, and so is left as it is
/// a second time.
pub proof fn lemma_other_url_unchanged(url: Seq<char>)
    requires
        !is_github_page(url_host(url), url_path_segments(url)),
    ensures
        normalized(url) == url,
        normalized(normalized(url)) == normalized(url),
{
}

/// A page `github.com/{owner}/{repo}/{marker}/{branch}/{a}/{b}/{c}` is
/// rewritten to `raw.githubusercontent.com/{owner}/{repo}/{branch}/{a}/{b}/{c}`
/// over https: the marker goes, everything else stays in place.
pub proof fn lemma_github_page_rewritten(
    url: Seq<char>,
    owner: Seq<char>,
    repo: Seq<char>,
    marker: Seq<char>,
    branch: Seq<char>,
    a: Seq<char>,
    b: Seq<char>,
    c: Seq<char>,
)
    ensures
        normalized_from(
            url,
            Some("github.com"@),
            Some(seq![owner, repo, marker, branch, a, b, c]),
        ) == "https://raw.githubusercontent.com/"@ + owner + "/"@ + repo + "/"@ + branch + "/"@ + a
            + "/"@ + b + "/"@ + c,
{
    let s = seq![owner, repo, marker, branch, a, b, c];
    let rest = s.subrange(4, 7);
    assert(rest =~= seq![a, b, c]);
    assert(rest.drop_last() =~= seq![a, b]);
    assert(rest.drop_last().drop_last() =~= seq![a]);
    reveal_with_fuel(join_segments, 4);
    assert(join_segments(rest) == a + "/"@ + b + "/"@ + c);
    let head = "https://raw.githubusercontent.com/"@ + owner + "/"@ + repo + "/"@ + branch + "/"@;
    assert(head + (a + "/"@ + b + "/"@ + c) =~= head + a + "/"@ + b + "/"@ + c);
}

} // verus!
