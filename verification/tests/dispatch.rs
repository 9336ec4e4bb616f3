use std::sync::{Arc, Mutex};

use lemon::app::dispatch::DispatchHandler;
use lemon::app::{respond, Dispatch, Metrics, MISS_LABEL};
use lemon::domain::generators::{
    DotEnvGenerator, Generator, GitConfigGenerator, PhpInfoGenerator,
};
use lemon::domain::Request;

#[derive(Clone, Default)]
struct SpyMetrics {
    served: Arc<Mutex<Vec<String>>>,
    misses: Arc<Mutex<usize>>,
}

impl Metrics for SpyMetrics {
    fn record_served(&self, generator: &str) {
        self.served.lock().unwrap().push(generator.to_string());
    }

    fn record_miss(&self) {
        *self.misses.lock().unwrap() += 1;
    }
}

fn handler(metrics: SpyMetrics) -> DispatchHandler<SpyMetrics> {
    DispatchHandler::new(
        vec![
            Generator::PhpInfo(PhpInfoGenerator::new()),
            Generator::DotEnv(DotEnvGenerator::new()),
        ],
        metrics,
    )
}

#[test]
fn dispatches_to_first_supporting_generator() {
    let metrics = SpyMetrics::default();
    let mut h = handler(metrics.clone());

    assert!(h.dispatch(&Request::get("/phpinfo.php")).is_some());
    assert!(h.dispatch(&Request::get("/app/.env")).is_some());

    assert_eq!(*metrics.served.lock().unwrap(), ["phpinfo", "dotenv"]);
    assert_eq!(*metrics.misses.lock().unwrap(), 0);
}

#[test]
fn records_miss_when_nothing_matches() {
    let metrics = SpyMetrics::default();
    let mut h = handler(metrics.clone());

    assert!(h.dispatch(&Request::get("/index.html")).is_none());

    assert!(metrics.served.lock().unwrap().is_empty());
    assert_eq!(*metrics.misses.lock().unwrap(), 1);
}

#[test]
fn the_earlier_generator_wins_when_two_match() {
    let metrics = SpyMetrics::default();
    let mut h = DispatchHandler::new(
        vec![
            Generator::GitConfig(GitConfigGenerator::new()),
            Generator::PhpInfo(PhpInfoGenerator::new()),
        ],
        metrics.clone(),
    );
    // `/.git/config?phpinfo=1` is recognised by both.
    let payload = h.dispatch(&Request::get("/.git/config?phpinfo=1")).unwrap();
    assert_eq!(payload.content_type(), "text/plain; charset=utf-8");
    assert_eq!(*metrics.served.lock().unwrap(), ["gitconfig"]);
}

#[test]
fn unmatched_requests_get_the_nginx_404_page() {
    let mut h = handler(SpyMetrics::default());
    let payload = respond(&mut h, &Request::get("/index.html"));
    assert_eq!(payload.status(), 404);
    assert_eq!(payload.content_type(), "text/html");
    assert_eq!(payload.delay(), None);
    let body = String::from_utf8(payload.into_body()).unwrap();
    assert!(body.contains("<title>404 Not Found</title>"));
    assert!(body.contains("<center>nginx</center>"));
}

#[test]
fn matched_requests_get_the_decoy() {
    let mut h = handler(SpyMetrics::default());
    let payload = respond(&mut h, &Request::get("/app/.env"));
    assert_eq!(payload.status(), 200);
}

#[test]
fn misses_are_labelled_none() {
    assert_eq!(MISS_LABEL, "none");
}

#[test]
fn an_empty_dispatcher_serves_nothing() {
    let metrics = SpyMetrics::default();
    let mut h = DispatchHandler::new(Vec::new(), metrics.clone());
    assert!(h.dispatch(&Request::get("/.env")).is_none());
    assert_eq!(*metrics.misses.lock().unwrap(), 1);
}

#[test]
fn each_request_is_counted_once() {
    let metrics = SpyMetrics::default();
    let mut h = handler(metrics.clone());
    respond(&mut h, &Request::get("/.env"));
    respond(&mut h, &Request::get("/nothing"));
    respond(&mut h, &Request::get("/info.php"));
    respond(&mut h, &Request::get("/nothing/else"));
    assert_eq!(*metrics.served.lock().unwrap(), ["dotenv", "phpinfo"]);
    assert_eq!(*metrics.misses.lock().unwrap(), 2);
}
