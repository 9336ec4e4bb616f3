use lemon::domain::generators::AwsCredentialsGenerator;
use lemon::domain::{PayloadGenerator, Request};

fn supports(path: &str) -> bool {
    AwsCredentialsGenerator::new().supports(&Request::get(path))
}

fn generate() -> String {
    let payload = AwsCredentialsGenerator::new().generate(&Request::get("/.aws/credentials"));
    String::from_utf8(payload.into_body()).unwrap()
}

#[test]
fn supports_aws_credentials_in_any_dir() {
    assert!(supports("/.aws/credentials"));
    assert!(supports("/home/ubuntu/.aws/credentials"));
    assert!(supports("/deep/nested/dir/.aws/credentials"));
}

#[test]
fn aws_credentials_ignores_unrelated_paths() {
    assert!(!supports("/.aws/config"));
    assert!(!supports("/credentials"));
    assert!(!supports("/.aws/"));
    assert!(!supports("/aws/credentials"));
    assert!(!supports("/"));
}

#[test]
fn generates_plausible_credentials() {
    let body = generate();
    assert!(body.contains("[default]"));
    assert!(body.contains("aws_access_key_id = "));
    assert!(body.contains("aws_secret_access_key = "));
    assert!(body.contains("region = "));
}

#[test]
fn generates_keys_with_realistic_shapes() {
    for _ in 0..100 {
        let body = generate();

        for line in body.lines() {
            if let Some(key_id) = line.strip_prefix("aws_access_key_id = ") {
                assert_eq!(key_id.len(), 20, "unexpected key id: {key_id}");
                assert!(key_id.starts_with("AKIA") || key_id.starts_with("ASIA"));
            }
            if let Some(secret) = line.strip_prefix("aws_secret_access_key = ") {
                assert_eq!(secret.len(), 40, "unexpected secret: {secret}");
            }
        }
    }
}

#[test]
fn generates_more_than_one_profile() {
    let body = generate();
    assert!(body.matches('[').count() >= 2);
}

#[test]
fn session_tokens_only_accompany_temporary_credentials() {
    for _ in 0..100 {
        let body = generate();

        for profile in body.split("[").skip(1) {
            if profile.contains("aws_session_token = ") {
                assert!(profile.contains("aws_access_key_id = ASIA"));
            } else {
                assert!(profile.contains("aws_access_key_id = AKIA"));
            }
        }
    }
}

#[test]
fn print_sample() {
    for _ in 0..3 {
        println!("=====\n{}", generate());
    }
}

#[test]
fn extra_profiles_are_distinct_and_follow_default() {
    for _ in 0..50 {
        let body = generate();
        let names: Vec<&str> = body
            .lines()
            .filter_map(|l| l.strip_prefix('['))
            .filter_map(|l| l.strip_suffix(']'))
            .collect();
        assert!(names.len() == 2 || names.len() == 3);
        assert_eq!(names[0], "default");
        for (i, a) in names.iter().enumerate() {
            for b in &names[i + 1..] {
                assert_ne!(a, b);
            }
        }
    }
}
