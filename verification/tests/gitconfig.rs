use lemon::domain::generators::GitConfigGenerator;
use lemon::domain::{PayloadGenerator, Request};

fn supports(path: &str) -> bool {
    GitConfigGenerator::new().supports(&Request::get(path))
}

#[test]
fn supports_git_config_in_any_dir() {
    assert!(supports("/.git/config"));
    assert!(supports("/app/.git/config"));
    assert!(supports("/deep/nested/dir/.git/config"));
}

#[test]
fn gitconfig_ignores_unrelated_paths() {
    assert!(!supports("/.git/HEAD"));
    assert!(!supports("/config"));
    assert!(!supports("/.git/"));
    assert!(!supports("/gitconfig"));
    assert!(!supports("/"));
}

#[test]
fn generates_plausible_git_config() {
    let payload = GitConfigGenerator::new().generate(&Request::get("/.git/config"));
    let body = String::from_utf8(payload.into_body()).unwrap();
    assert!(body.contains("[remote \"origin\"]"));
    assert!(body.contains("ghp_"));
}

#[test]
fn git_token_has_the_shape_of_a_github_token() {
    let payload = GitConfigGenerator::new().generate(&Request::get("/.git/config"));
    assert_eq!(payload.status(), 200);
    assert_eq!(payload.content_type(), "text/plain; charset=utf-8");
    let body = String::from_utf8(payload.into_body()).unwrap();
    let url = body.lines().find(|l| l.starts_with("\turl = https://")).unwrap();
    let token = url.split(':').nth(2).unwrap().split('@').next().unwrap();
    assert_eq!(token.len(), 40);
    assert!(token.starts_with("ghp_"));
    assert!(token[4..].chars().all(|c| c.is_ascii_alphanumeric()));
    assert_eq!(GitConfigGenerator::new().name(), "gitconfig");
}
