use lemon::entrypoints::http::response_status;

#[test]
fn valid_statuses_are_kept() {
    assert_eq!(response_status(200), 200);
    assert_eq!(response_status(404), 404);
    assert_eq!(response_status(100), 100);
    assert_eq!(response_status(999), 999);
}

#[test]
fn invalid_statuses_become_server_errors() {
    assert_eq!(response_status(0), 500);
    assert_eq!(response_status(99), 500);
    assert_eq!(response_status(1000), 500);
    assert_eq!(response_status(u16::MAX), 500);
}
