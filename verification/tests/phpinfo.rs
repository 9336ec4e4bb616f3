use lemon::domain::generators::PhpInfoGenerator;
use lemon::domain::{PayloadGenerator, Request};

fn supports(path: &str) -> bool {
    PhpInfoGenerator::new().supports(&Request::get(path))
}

#[test]
fn supports_all_filename_variants() {
    for name in [
        "php-info",
        "php-info.php",
        "php_info",
        "php_info.php",
        "phpinfo",
        "phpinfo.php",
        "phpinfo.php3",
    ] {
        assert!(supports(&format!("/{name}")), "should support /{name}");
        assert!(
            supports(&format!("/deep/nested/{name}")),
            "should support nested /{name}"
        );
        assert!(
            supports(&format!("/{}", name.to_uppercase())),
            "should support uppercase /{name}"
        );
    }
}

#[test]
fn supports_generic_and_query_probes() {
    assert!(supports("/info.php"));
    assert!(supports("/test.php"));
    assert!(supports("/index.php?phpinfo=1"));
    assert!(supports("/?page=phpinfo"));
}

#[test]
fn phpinfo_ignores_unrelated_paths() {
    assert!(!supports("/index.php"));
    assert!(!supports("/wp-login.php"));
    assert!(!supports("/.env"));
    assert!(!supports("/info"));
    assert!(!supports("/test"));
    assert!(!supports("/"));
}

#[test]
fn generates_real_phpinfo_page() {
    let payload = PhpInfoGenerator::new().generate(&Request::get("/phpinfo.php"));
    let body = String::from_utf8(payload.into_body()).unwrap();
    assert!(body.contains("<title>phpinfo()</title>"));
    assert!(body.contains("PHP Version 5.6.40"));
    assert!(body.contains("<td class=\"v\">/phpinfo.php</td>"));
    assert!(body.contains("/var/www/html/phpinfo.php"));
}

#[test]
fn phpinfo_page_is_html_and_reports_the_request_time() {
    let payload = PhpInfoGenerator::new().generate(&Request::get("/info.php"));
    assert_eq!(payload.status(), 200);
    assert_eq!(payload.content_type(), "text/html; charset=utf-8");
    let body = String::from_utf8(payload.into_body()).unwrap();
    let marker = "_SERVER[\"REQUEST_TIME_FLOAT\"]</td><td class=\"v\">";
    let start = body.find(marker).unwrap() + marker.len();
    let rest = &body[start..];
    let value = &rest[..rest.find('<').unwrap()];
    let (secs, millis) = value.split_once('.').unwrap();
    assert!(secs.parse::<u64>().unwrap() > 1_600_000_000);
    assert_eq!(millis.len(), 3);
    assert!(millis.chars().all(|c| c.is_ascii_digit()));
}

#[test]
fn phpinfo_escapes_the_reflected_path() {
    let payload = PhpInfoGenerator::new().generate(&Request::get("/x%3Cb%3E/phpinfo.php"));
    let body = String::from_utf8(payload.into_body()).unwrap();
    assert!(!body.contains("<b>"));
}

#[test]
fn phpinfo_name_is_stable() {
    assert_eq!(PhpInfoGenerator::new().name(), "phpinfo");
}
