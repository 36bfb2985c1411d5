use pipe_resolver::classify::classify;
use pipe_resolver::classify::first_step;
use pipe_resolver::classify::local_source;
use pipe_resolver::classify::SourceKind;
use pipe_resolver::classify::Step;
use pipe_resolver::error::ResolveError;
use pipe_resolver::fetch::accept_response;
use pipe_resolver::fetch::plan_download;
use pipe_resolver::fetch::transport_failure;
use pipe_resolver::fetch::DownloadPlan;
use pipe_resolver::fetch::validate_host;
use pipe_resolver::parsed::UrlParts;

fn plan() -> DownloadPlan {
    DownloadPlan {
        source: "https://github.com/o/r/blob/b/f.js".to_string(),
        raw_url: "https://raw.githubusercontent.com/o/r/b/f.js".to_string(),
        extension: "js".to_string(),
    }
}

#[test]
fn urls_are_remote() {
    assert_eq!(classify("https://github.com/owner/repo/blob/main/pipe.js"), SourceKind::Remote);
    assert_eq!(classify("http://example.com"), SourceKind::Remote);
}

#[test]
fn everything_else_is_local() {
    assert_eq!(classify("./pipes/main.js"), SourceKind::Local);
    assert_eq!(classify("/usr/share/pipes/main.js"), SourceKind::Local);
    assert_eq!(classify("pipe.js"), SourceKind::Local);
    assert_eq!(classify("not a url"), SourceKind::Local);
}

#[test]
fn url_without_host_is_local() {
    assert_eq!(classify("local:pipe.js"), SourceKind::Local);
    assert_eq!(classify("mailto:a@b.c"), SourceKind::Local);
    assert_eq!(classify("C:\\pipes\\a.js"), SourceKind::Local);
    assert_eq!(classify("data:text/plain,Stuff"), SourceKind::Local);
}

#[test]
fn first_step_for_a_url_without_host_is_to_canonicalize_it() {
    for input in ["local:pipe.js", "mailto:a@b.c", "C:\\pipes\\a.js"] {
        match first_step(input) {
            Ok(Step::Canonicalize { path }) => assert_eq!(path, input),
            other => panic!("unexpected: {:?}", other),
        }
    }
}

#[test]
fn github_page_is_planned_with_its_extension() {
    let plan = plan_download("https://github.com/owner/repo/blob/main/tools/tool.py").unwrap();
    assert_eq!(plan.source, "https://github.com/owner/repo/blob/main/tools/tool.py");
    assert_eq!(plan.raw_url, "https://raw.githubusercontent.com/owner/repo/main/tools/tool.py");
    assert_eq!(plan.extension, "py");
}

#[test]
fn raw_url_without_extension_is_stored_as_js() {
    let plan = plan_download("https://raw.githubusercontent.com/owner/repo/main/run").unwrap();
    assert_eq!(plan.raw_url, "https://raw.githubusercontent.com/owner/repo/main/run");
    assert_eq!(plan.extension, "js");
}

#[test]
fn extension_ignores_the_query() {
    let plan = plan_download("https://github.com/owner/repo/blob/main/x.ts?raw=1").unwrap();
    assert_eq!(plan.extension, "ts");
}

#[test]
fn example_com_is_unsupported() {
    match plan_download("https://example.com/pipe.js") {
        Err(ResolveError::UnsupportedSource { url }) => {
            assert_eq!(url, "https://example.com/pipe.js")
        }
        other => panic!("unexpected: {:?}", other),
    }
}

#[test]
fn github_url_that_is_no_page_is_unsupported() {
    match plan_download("https://github.com/owner/repo") {
        Err(ResolveError::UnsupportedSource { url }) => {
            assert_eq!(url, "https://github.com/owner/repo")
        }
        other => panic!("unexpected: {:?}", other),
    }
}

#[test]
fn url_without_host_is_unsupported() {
    assert!(matches!(
        plan_download("mailto:someone@example.com"),
        Err(ResolveError::UnsupportedSource { .. })
    ));
}

#[test]
fn plan_for_text_that_is_no_url_is_malformed() {
    match plan_download("pipes/main.js") {
        Err(ResolveError::MalformedUrl { input, .. }) => assert_eq!(input, "pipes/main.js"),
        other => panic!("unexpected: {:?}", other),
    }
}

#[test]
fn host_is_validated_as_parsed() {
    let trusted = UrlParts { host: Some("raw.githubusercontent.com".to_string()), segments: None };
    let other = UrlParts { host: Some("raw.githubusercontent.com.evil.io".to_string()), segments: None };
    let none = UrlParts { host: None, segments: None };
    assert_eq!(validate_host("u".to_string(), &trusted).unwrap(), "u");
    assert!(matches!(
        validate_host("u".to_string(), &other),
        Err(ResolveError::UnsupportedSource { url }) if url == "u"
    ));
    assert!(matches!(
        validate_host("u".to_string(), &none),
        Err(ResolveError::UnsupportedSource { .. })
    ));
}

#[test]
fn first_step_for_a_path_is_to_canonicalize_it() {
    match first_step("./pipes/main.js") {
        Ok(Step::Canonicalize { path }) => assert_eq!(path, "./pipes/main.js"),
        other => panic!("unexpected: {:?}", other),
    }
}

#[test]
fn first_step_for_a_url_is_its_download() {
    match first_step("https://github.com/owner/repo/blob/main/pipe.ts") {
        Ok(Step::Download { plan }) => {
            assert_eq!(plan.raw_url, "https://raw.githubusercontent.com/owner/repo/main/pipe.ts");
            assert_eq!(plan.extension, "ts");
        }
        other => panic!("unexpected: {:?}", other),
    }
}

#[test]
fn first_step_refuses_a_foreign_host() {
    assert!(matches!(
        first_step("https://example.com/pipe.js"),
        Err(ResolveError::UnsupportedSource { .. })
    ));
}

#[test]
fn missing_local_path_is_a_path_resolution_error() {
    let r = local_source("./nowhere.js", Err("No such file or directory".to_string()));
    match r {
        Err(ResolveError::PathResolution { path, cause }) => {
            assert_eq!(path, "./nowhere.js");
            assert_eq!(cause, "No such file or directory");
        }
        other => panic!("unexpected: {:?}", other),
    }
}

#[test]
fn canonical_local_path_is_the_source() {
    let r = local_source("./pipe.js", Ok("/home/user/pipe.js".to_string()));
    assert_eq!(r.unwrap(), "/home/user/pipe.js");
}

#[test]
fn successful_response_hands_the_body_on() {
    let body = "export default () => 1;\n".to_string();
    assert_eq!(accept_response(&plan(), 200, Ok(body.clone())).unwrap(), body);
    assert_eq!(accept_response(&plan(), 299, Ok(body.clone())).unwrap(), body);
    assert_eq!(accept_response(&plan(), 204, Ok(String::new())).unwrap(), "");
}

#[test]
fn other_status_is_a_fetch_error_with_status_and_body() {
    for status in [199u16, 300, 404, 500] {
        match accept_response(&plan(), status, Ok("gone".to_string())) {
            Err(ResolveError::Fetch { input, url, status: s, detail }) => {
                assert_eq!(input, "https://github.com/o/r/blob/b/f.js");
                assert_eq!(url, "https://raw.githubusercontent.com/o/r/b/f.js");
                assert_eq!(s, Some(status));
                assert_eq!(detail, "gone");
            }
            other => panic!("unexpected: {:?}", other),
        }
    }
}

#[test]
fn unreadable_body_is_a_fetch_error() {
    match accept_response(&plan(), 200, Err("error decoding response body".to_string())) {
        Err(ResolveError::Fetch { input, url, status, detail }) => {
            assert_eq!(input, "https://github.com/o/r/blob/b/f.js");
            assert_eq!(url, "https://raw.githubusercontent.com/o/r/b/f.js");
            assert_eq!(status, Some(200));
            assert_eq!(detail, "error decoding response body");
        }
        other => panic!("unexpected: {:?}", other),
    }
}

#[test]
fn messages_name_input_and_cause() {
    let e = ResolveError::PathResolution { path: "p".to_string(), cause: "c".to_string() };
    assert_eq!(e.message(), "Failed to canonicalize path p: c");
    let e = ResolveError::MalformedUrl { input: "x".to_string(), cause: "c".to_string() };
    assert_eq!(e.message(), "Malformed URL x: c");
    let e = ResolveError::UnsupportedSource { url: "https://example.com/".to_string() };
    assert_eq!(
        e.message(),
        "Only public GitHub URLs or raw.githubusercontent.com URLs are supported: https://example.com/"
    );
    let e = ResolveError::Fetch {
        input: "i".to_string(),
        url: "u".to_string(),
        status: Some(404),
        detail: "d".to_string(),
    };
    assert_eq!(e.message(), "Failed to fetch i from u: d");
    let e = ResolveError::Persistence { cause: "disk full".to_string() };
    assert_eq!(e.message(), "Failed to store the pipe: disk full");
}

#[test]
fn request_without_answer_is_a_fetch_error_without_status() {
    match transport_failure(&plan(), "connection refused".to_string()) {
        ResolveError::Fetch { input, url, status, detail } => {
            assert_eq!(input, "https://github.com/o/r/blob/b/f.js");
            assert_eq!(url, "https://raw.githubusercontent.com/o/r/b/f.js");
            assert_eq!(status, None);
            assert_eq!(detail, "connection refused");
        }
        other => panic!("unexpected: {:?}", other),
    }
}

#[test]
fn plan_keeps_the_url_as_given() {
    let plan = plan_download("https://raw.githubusercontent.com/owner/repo/main/run.ts").unwrap();
    assert_eq!(plan.source, "https://raw.githubusercontent.com/owner/repo/main/run.ts");
    assert_eq!(plan.raw_url, plan.source);
}

#[test]
fn extension_survives_a_slash_at_the_end() {
    let plan = plan_download("https://raw.githubusercontent.com/owner/repo/main/dir.d/").unwrap();
    assert_eq!(plan.extension, "d");
}
