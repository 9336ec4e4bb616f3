use lemon::decoding::percent_decode_lossy;
use lemon::domain::{Request, RequestUrl};

#[test]
fn decodes_escapes_once() {
    assert_eq!(percent_decode_lossy("%2561"), "%61");
    assert_eq!(percent_decode_lossy("a%20b"), "a b");
}

#[test]
fn keeps_malformed_escapes() {
    assert_eq!(percent_decode_lossy("100%"), "100%");
    assert_eq!(percent_decode_lossy("%zz"), "%zz");
}

#[test]
fn replaces_invalid_utf8() {
    assert_eq!(percent_decode_lossy("%ff"), "\u{fffd}");
}

#[test]
fn form_fields_need_a_utf8_body() {
    let url = RequestUrl::parse("/wp-login.php");
    let good = Request::new("POST".to_string(), url.clone(), "log=h%C3%A9".as_bytes().to_vec());
    assert_eq!(good.form_field("log"), Some("hé".to_string()));
    let bad = Request::new("POST".to_string(), url, vec![b'l', b'o', b'g', b'=', 0xff]);
    assert_eq!(bad.form_field("log"), None);
}
