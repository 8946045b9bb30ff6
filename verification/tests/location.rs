use rgc::gemini::location::apply_default_scheme;
use rgc::gemini::{resolve, ResolutionError};

#[test]
fn a_bare_host_gets_the_default_scheme() {
    let location = resolve("", "example.org").unwrap();
    assert_eq!(location.text(), "gemini://example.org");
    assert_eq!(location.scheme(), "gemini");
    assert_eq!(location.host(), Some("example.org"));
    assert_eq!(location.port(), None);
    assert_eq!(location.path(), "");
    assert_eq!(location.query(), None);
    assert_eq!(location.fragment(), None);
}

#[test]
fn the_default_scheme_goes_before_inputs_without_a_separator() {
    assert_eq!(apply_default_scheme("example.org/a"), "gemini://example.org/a");
    assert_eq!(apply_default_scheme(""), "gemini://");
    assert_eq!(apply_default_scheme("a:/b"), "gemini://a:/b");
    assert_eq!(apply_default_scheme("gemini://example.org"), "gemini://example.org");
    assert_eq!(apply_default_scheme("https://example.org"), "https://example.org");
    assert_eq!(apply_default_scheme("x?u=a://b"), "x?u=a://b");
}

#[test]
fn the_parts_of_a_location_are_read_off() {
    let location = resolve("", "gemini://example.org:1966/dir/page.gmi?q=1#top").unwrap();
    assert_eq!(location.text(), "gemini://example.org:1966/dir/page.gmi?q=1#top");
    assert_eq!(location.scheme(), "gemini");
    assert_eq!(location.host(), Some("example.org"));
    assert_eq!(location.port(), Some(1966));
    assert_eq!(location.path(), "/dir/page.gmi");
    assert_eq!(location.query(), Some("q=1"));
    assert_eq!(location.fragment(), Some("top"));
}

#[test]
fn a_location_is_normalized() {
    let location = resolve("", "GEMINI://example.org/a/../b/./c").unwrap();
    assert_eq!(location.text(), "gemini://example.org/b/c");
    assert_eq!(location.path(), "/b/c");
    let web = resolve("", "HTTPS://Example.ORG:443").unwrap();
    assert_eq!(web.text(), "https://example.org/");
    assert_eq!(web.host(), Some("example.org"));
    assert_eq!(web.port(), None);
}

#[test]
fn a_relative_input_replaces_the_last_segment() {
    let location = resolve("gemini://example.org/a/b", "c").unwrap();
    assert_eq!(location.path(), "/a/c");
    assert_eq!(location.text(), "gemini://example.org/a/c");
    assert_eq!(location.host(), Some("example.org"));
}

#[test]
fn relative_references_resolve_as_usual() {
    let base = "gemini://example.org/a/b/";
    assert_eq!(resolve(base, "c").unwrap().text(), "gemini://example.org/a/b/c");
    assert_eq!(resolve(base, "../c").unwrap().text(), "gemini://example.org/a/c");
    assert_eq!(resolve(base, "/c").unwrap().text(), "gemini://example.org/c");
    assert_eq!(resolve(base, "//other.org/c").unwrap().text(), "gemini://other.org/c");
    assert_eq!(resolve(base, "?q").unwrap().text(), "gemini://example.org/a/b/?q");
    assert_eq!(resolve(base, "").unwrap().text(), "gemini://example.org/a/b/");
}

#[test]
fn an_absolute_input_ignores_the_base() {
    let absolute = "gemini://other.org/x/y?z";
    for base in ["gemini://example.org/a/b", "gemini://other.org/", "https://example.org/q"] {
        assert_eq!(resolve(base, absolute).unwrap().text(), absolute);
    }
    assert_eq!(resolve("", absolute).unwrap().text(), absolute);
    let again = resolve("", absolute).unwrap();
    assert_eq!(resolve("gemini://example.org/", again.text()).unwrap().text(), again.text());
}

#[test]
fn with_a_base_no_scheme_is_added() {
    let location = resolve("gemini://example.org/docs/", "other.org").unwrap();
    assert_eq!(location.text(), "gemini://example.org/docs/other.org");
}

#[test]
fn a_malformed_target_is_refused_with_the_parser_message() {
    match resolve("", "gemini://[::1") {
        Err(ResolutionError::MalformedTarget(detail)) => assert_eq!(detail, "invalid IPv6 address"),
        other => panic!("{:?}", other),
    }
    match resolve("", "gemini://example.org:port/") {
        Err(ResolutionError::MalformedTarget(detail)) => assert_eq!(detail, "invalid port number"),
        other => panic!("{:?}", other),
    }
    match resolve("gemini://example.org/", "//[::1") {
        Err(ResolutionError::MalformedTarget(detail)) => assert_eq!(detail, "invalid IPv6 address"),
        other => panic!("{:?}", other),
    }
}

#[test]
fn a_malformed_base_is_refused_with_the_parser_message() {
    match resolve("no scheme here", "page") {
        Err(ResolutionError::MalformedBase(detail)) => {
            assert_eq!(detail, "relative URL without a base")
        }
        other => panic!("{:?}", other),
    }
    match resolve("example.org", "gemini://example.org/") {
        Err(ResolutionError::MalformedBase(_)) => {}
        other => panic!("{:?}", other),
    }
}

#[test]
fn a_location_without_a_host_is_refused() {
    assert!(matches!(
        resolve("", "data:text/plain,a://b"),
        Err(ResolutionError::MissingHost)
    ));
    assert!(matches!(
        resolve("gemini://example.org/", "mailto:someone@example.org"),
        Err(ResolutionError::MissingHost)
    ));
}
