use lemon::domain::generators::AwsConfigGenerator;
use lemon::domain::{PayloadGenerator, Request};

fn supports(path: &str) -> bool {
    AwsConfigGenerator::new().supports(&Request::get(path))
}

fn generate() -> String {
    let payload = AwsConfigGenerator::new().generate(&Request::get("/.aws/config"));
    String::from_utf8(payload.into_body()).unwrap()
}

fn headers(body: &str) -> Vec<&str> {
    body.lines()
        .filter_map(|line| line.strip_prefix('['))
        .filter_map(|line| line.strip_suffix(']'))
        .collect()
}

fn assert_account_id(value: &str) {
    assert_eq!(value.len(), 12, "unexpected account id: {value}");
    assert!(value.chars().all(|c| c.is_ascii_digit()));
}

#[test]
fn supports_aws_config_in_any_dir() {
    assert!(supports("/.aws/config"));
    assert!(supports("/home/ubuntu/.aws/config"));
    assert!(supports("/deep/nested/dir/.aws/config"));
}

#[test]
fn aws_config_ignores_unrelated_paths() {
    assert!(!supports("/.aws/credentials"));
    assert!(!supports("/config"));
    assert!(!supports("/.aws/"));
    assert!(!supports("/aws/config"));
    assert!(!supports("/"));
}

#[test]
fn generates_plausible_config() {
    let body = generate();
    assert!(body.contains("[default]"));
    assert!(body.contains("region = "));
    assert!(body.contains("output = json"));
}

#[test]
fn names_non_default_profiles_the_way_the_config_file_does() {
    for _ in 0..100 {
        let body = generate();

        for header in headers(&body) {
            assert!(
                header == "default"
                    || header.starts_with("profile ")
                    || header.starts_with("sso-session "),
                "unexpected section header: {header}"
            );
        }
    }
}

#[test]
fn references_only_declared_sso_sessions() {
    for _ in 0..100 {
        let body = generate();

        let declared: Vec<String> = headers(&body)
            .iter()
            .filter_map(|header| header.strip_prefix("sso-session "))
            .map(|name| name.to_string())
            .collect();

        for line in body.lines() {
            if let Some(session) = line.strip_prefix("sso_session = ") {
                assert!(
                    declared.contains(&session.to_string()),
                    "{session} is referenced but never declared"
                );
            }
        }
    }
}

#[test]
fn generates_valid_arns_and_account_ids() {
    for _ in 0..100 {
        let body = generate();

        for line in body.lines() {
            let Some((key, value)) = line.split_once(" = ") else {
                continue;
            };

            match key {
                "role_arn" | "mfa_serial" => {
                    let parts: Vec<&str> = value.split(':').collect();
                    assert_eq!(parts.len(), 6, "unexpected arn: {value}");
                    assert_eq!(&parts[..3], ["arn", "aws", "iam"]);
                    assert!(parts[3].is_empty(), "iam arns have no region: {value}");
                    assert_account_id(parts[4]);
                }
                "sso_account_id" => assert_account_id(value),
                _ => {}
            }
        }
    }
}

#[test]
fn aws_config_is_served_as_plain_text() {
    let payload = AwsConfigGenerator::new().generate(&Request::get("/.aws/config"));
    assert_eq!(payload.status(), 200);
    assert_eq!(payload.content_type(), "text/plain; charset=utf-8");
    assert_eq!(payload.delay(), None);
}
