use lemon::domain::request_url::UriParts;
use lemon::domain::RequestUrl;

#[test]
fn parses_path_segments_and_query() {
    let url = RequestUrl::parse("/app/config/.env?raw=1");
    assert_eq!(url.path(), "/app/config/.env");
    assert_eq!(url.segments(), ["app", "config", ".env"]);
    assert_eq!(url.file_name().as_deref(), Some(".env"));
    assert_eq!(url.extension(), None);
    assert_eq!(url.query(), Some("raw=1"));
}

#[test]
fn parses_extension() {
    let url = RequestUrl::parse("/phpinfo.php");
    assert_eq!(url.file_name().as_deref(), Some("phpinfo.php"));
    assert_eq!(url.extension().as_deref(), Some("php"));
    assert_eq!(url.query(), None);
}

#[test]
fn empty_path_becomes_root() {
    let url = RequestUrl::parse("/");
    assert_eq!(url.path(), "/");
    assert!(url.segments().is_empty());
    assert_eq!(url.file_name(), None);
}

#[test]
fn query_mentions_is_case_insensitive() {
    let url = RequestUrl::parse("/?PHPInfo=1");
    assert!(url.query_mentions("phpinfo"));
    assert!(!url.query_mentions("env"));
}

#[test]
fn decodes_percent_encoded_path() {
    let url = RequestUrl::parse("/%61%75%74%68.%6a%73%6f%6e");
    assert_eq!(url.path(), "/auth.json");
    assert_eq!(url.file_name().as_deref(), Some("auth.json"));
    assert_eq!(url.extension().as_deref(), Some("json"));
}

#[test]
fn decodes_encoded_slashes_into_segments() {
    let url = RequestUrl::parse("/app%2Fconfig%2F.env");
    assert_eq!(url.path(), "/app/config/.env");
    assert_eq!(url.file_name().as_deref(), Some(".env"));
}

#[test]
fn decodes_repeatedly_encoded_path() {
    let url = RequestUrl::parse("/%2561uth.json");
    assert_eq!(url.path(), "/auth.json");
}

#[test]
fn strips_null_bytes_and_other_control_characters() {
    let url = RequestUrl::parse("/%00.env.swp");
    assert_eq!(url.path(), "/.env.swp");
    assert_eq!(url.file_name().as_deref(), Some(".env.swp"));

    let url = RequestUrl::parse("/%00auth.json");
    assert_eq!(url.path(), "/auth.json");

    let url = RequestUrl::parse("/aws-config%0d%0a.js");
    assert_eq!(url.path(), "/aws-config.js");
}

#[test]
fn decodes_query() {
    let url = RequestUrl::parse("/?%70%68%70info=1");
    assert!(url.query_mentions("phpinfo"));
}

#[test]
fn invalid_utf8_does_not_panic() {
    let url = RequestUrl::parse("/%ff%fe.env");
    assert!(url.file_name().is_some());
}

#[test]
fn invalid_utf8_is_replaced_by_the_replacement_character() {
    let url = RequestUrl::parse("/%ff.env");
    assert_eq!(url.path(), "/\u{fffd}.env");
}

#[test]
fn decoding_stops_after_three_passes() {
    // Four layers of encoding: three passes leave one `%61` behind.
    let url = RequestUrl::parse("/%25252561uth.json");
    assert_eq!(url.path(), "/%61uth.json");
}

#[test]
fn malformed_escapes_are_kept() {
    let url = RequestUrl::parse("/100%zz");
    assert_eq!(url.path(), "/100%zz");
}

#[test]
fn plain_paths_are_kept_as_sent() {
    let url = RequestUrl::parse("/a/b-c_d.txt");
    assert_eq!(url.path(), "/a/b-c_d.txt");
}

#[test]
fn text_that_is_no_uri_is_taken_for_the_root() {
    let url = RequestUrl::parse("not a uri");
    assert_eq!(url.path(), "/");
    assert_eq!(url.query(), None);
}

#[test]
fn from_uri_normalizes_both_parts() {
    let parts = UriParts {
        path: "/%2e%65nv".to_string(),
        query: Some("a=%41%00".to_string()),
    };
    let url = RequestUrl::from_uri(&parts);
    assert_eq!(url.path(), "/.env");
    assert_eq!(url.query(), Some("a=A"));
}

#[test]
fn extension_needs_something_before_the_dot() {
    assert_eq!(RequestUrl::parse("/.htaccess").extension(), None);
    assert_eq!(RequestUrl::parse("/archive.tar.gz").extension().as_deref(), Some("gz"));
    assert_eq!(RequestUrl::parse("/name.").extension().as_deref(), Some(""));
    assert_eq!(RequestUrl::parse("/a/..").extension(), None);
    assert_eq!(RequestUrl::parse("/README").extension(), None);
}

#[test]
fn empty_segments_are_skipped() {
    let url = RequestUrl::parse("//a///b/");
    assert_eq!(url.segments(), ["a", "b"]);
    assert_eq!(url.file_name().as_deref(), Some("b"));
}
