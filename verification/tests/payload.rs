use lemon::domain::Payload;

#[test]
fn new_payloads_are_answered_at_once() {
    let payload = Payload::new(418, "text/teapot".to_string(), vec![1, 2, 3]);
    assert_eq!(payload.status(), 418);
    assert_eq!(payload.content_type(), "text/teapot");
    assert_eq!(payload.body(), &[1, 2, 3]);
    assert_eq!(payload.delay(), None);
}

#[test]
fn with_delay_keeps_everything_else() {
    let payload = Payload::text("hello".to_string()).with_delay(2500);
    assert_eq!(payload.delay(), Some(2500));
    assert_eq!(payload.status(), 200);
    assert_eq!(payload.content_type(), "text/plain; charset=utf-8");
    assert_eq!(payload.into_body(), b"hello".to_vec());
}

#[test]
fn html_payloads_are_utf8_html() {
    let payload = Payload::html("<p>é</p>".to_string());
    assert_eq!(payload.status(), 200);
    assert_eq!(payload.content_type(), "text/html; charset=utf-8");
    assert_eq!(payload.body(), "<p>é</p>".as_bytes());
}
