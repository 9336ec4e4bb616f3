use lemon::domain::{Request, RequestUrl};

#[test]
fn reads_form_fields_out_of_the_body() {
    let request = Request::post("/wp-login.php", "log=admin&pwd=s3cret&wp-submit=Log+In");
    assert_eq!(request.form_field("log").as_deref(), Some("admin"));
    assert_eq!(request.form_field("pwd").as_deref(), Some("s3cret"));
    assert_eq!(request.form_field("wp-submit").as_deref(), Some("Log In"));
    assert_eq!(request.form_field("missing"), None);
}

#[test]
fn decodes_percent_and_plus_in_form_values() {
    let request = Request::post("/wp-login.php", "log=a%40b.com&pwd=p%20%26q");
    assert_eq!(request.form_field("log").as_deref(), Some("a@b.com"));
    assert_eq!(request.form_field("pwd").as_deref(), Some("p &q"));
}

#[test]
fn get_has_no_body() {
    let request = Request::get("/wp-login.php");
    assert!(!request.is_post());
    assert_eq!(request.form_field("log"), None);
}

#[test]
fn the_first_of_repeated_fields_wins() {
    let request = Request::post("/", "a=1&a=2");
    assert_eq!(request.form_field("a").as_deref(), Some("1"));
}

#[test]
fn fields_without_a_value_are_empty_and_empty_pairs_are_skipped() {
    let request = Request::post("/", "&&flag&x=1=2");
    assert_eq!(request.form_field("flag").as_deref(), Some(""));
    assert_eq!(request.form_field("x").as_deref(), Some("1=2"));
    assert_eq!(request.form_field(""), None);
}

#[test]
fn keys_are_decoded_too() {
    let request = Request::post("/", "user%5Bname%5D=bob&a+b=c");
    assert_eq!(request.form_field("user[name]").as_deref(), Some("bob"));
    assert_eq!(request.form_field("a b").as_deref(), Some("c"));
}

#[test]
fn a_body_that_is_not_utf8_has_no_fields() {
    let request = Request::new("POST".to_string(), RequestUrl::parse("/"), vec![b'a', b'=', 0xff]);
    assert_eq!(request.form_field("a"), None);
}

#[test]
fn only_the_upper_case_method_is_a_post() {
    assert!(Request::post("/", "").is_post());
    let request = Request::new("post".to_string(), RequestUrl::parse("/"), Vec::new());
    assert!(!request.is_post());
    assert_eq!(request.method(), "post");
    assert_eq!(request.url().path(), "/");
    assert!(request.body().is_empty());
}
