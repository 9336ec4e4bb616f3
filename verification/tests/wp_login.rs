use lemon::domain::generators::wp_login::{MAX_DELAY_MS, MIN_DELAY_MS};
use lemon::domain::generators::WpLoginGenerator;
use lemon::domain::{PayloadGenerator, Request};

fn supports(request: &Request) -> bool {
    WpLoginGenerator::new().supports(request)
}

fn render(request: &Request) -> String {
    String::from_utf8(WpLoginGenerator::new().generate(request).into_body()).unwrap()
}

#[test]
fn supports_wp_login_anywhere_and_ignores_others() {
    assert!(supports(&Request::get("/wp-login.php")));
    assert!(supports(&Request::get("/WP-LOGIN.PHP")));
    assert!(supports(&Request::post("/wp/wp-login.php", "")));
    assert!(!supports(&Request::get("/wp-admin/")));
    assert!(!supports(&Request::get("/xmlrpc.php")));
    assert!(!supports(&Request::get("/")));
}

#[test]
fn get_serves_the_login_form_without_an_error_or_delay() {
    let payload = WpLoginGenerator::new().generate(&Request::get("/wp-login.php"));
    assert!(payload.delay().is_none());

    let body = String::from_utf8(payload.into_body()).unwrap();
    assert!(body.contains("<form name=\"loginform\""));
    assert!(!body.contains("login_error"));
    assert!(body.contains("value=\"/wp-admin/\""));
    assert!(body.contains("getElementById( \"user_login\" )"));
}

#[test]
fn post_rejects_bad_credentials_like_wordpress_does() {
    let request = Request::post("/wp-login.php", "log=admin&pwd=hunter2&redirect_to=");
    let payload = WpLoginGenerator::new().generate(&request);

    let delay = payload.delay().expect("credential submissions are delayed");
    assert!(delay >= MIN_DELAY_MS);
    assert!(delay <= MAX_DELAY_MS);

    let body = String::from_utf8(payload.into_body()).unwrap();
    assert!(body.contains(
        "The password you entered for the username <strong>admin</strong> is incorrect."
    ));
    assert!(body.contains("value=\"admin\""));
    assert!(body.contains("classList.add('shake')"));
    assert!(body.contains("getElementById( \"user_pass\" )"));
}

#[test]
fn post_reports_an_empty_username() {
    let body = render(&Request::post("/wp-login.php", "log=&pwd=x"));
    assert!(body.contains("The username field is empty."));
}

#[test]
fn post_reports_an_empty_password() {
    let body = render(&Request::post("/wp-login.php", "log=admin&pwd="));
    assert!(body.contains("The password field is empty."));
}

#[test]
fn reflected_username_is_html_escaped() {
    let body = render(&Request::post("/wp-login.php", "log=%3Cscript%3E&pwd=x"));
    assert!(!body.contains("<script>x"));
    assert!(body.contains("&#60;script&#62;") || body.contains("&lt;script&gt;"));
}

#[test]
fn post_keeps_the_redirect_target() {
    let body = render(&Request::post(
        "/wp-login.php",
        "log=admin&pwd=x&redirect_to=%2Fwp-admin%2Fedit.php",
    ));
    assert!(body.contains("value=\"/wp-admin/edit.php\""));
}

#[test]
fn post_with_blank_username_reports_it_as_empty() {
    let body = render(&Request::post("/wp-login.php", "log=+++&pwd=x"));
    assert!(body.contains("The username field is empty."));
}

#[test]
fn post_without_fields_reports_the_username_first() {
    let body = render(&Request::post("/wp-login.php", ""));
    assert!(body.contains("The username field is empty."));
    assert!(!body.contains("The password field is empty."));
}

#[test]
fn login_pages_are_html() {
    let payload = WpLoginGenerator::new().generate(&Request::get("/wp-login.php"));
    assert_eq!(payload.status(), 200);
    assert_eq!(payload.content_type(), "text/html; charset=utf-8");
}
