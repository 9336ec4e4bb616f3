use lemon::domain::generators::DotEnvGenerator;
use lemon::domain::{PayloadGenerator, Request};

fn supports(path: &str) -> bool {
    DotEnvGenerator::new().supports(&Request::get(path))
}

fn generate() -> String {
    let payload = DotEnvGenerator::new().generate(&Request::get("/.env"));
    String::from_utf8(payload.into_body()).unwrap()
}

#[test]
fn supports_dotenv_in_any_dir() {
    assert!(supports("/.env"));
    assert!(supports("/app/.env"));
    assert!(supports("/deep/nested/dir/.env"));
    assert!(supports("/.env.production"));
    assert!(supports("/config/.env.local"));
    assert!(supports("/.env.bak"));
}

#[test]
fn dotenv_ignores_unrelated_paths() {
    assert!(!supports("/index.html"));
    assert!(!supports("/environment"));
    assert!(!supports("/"));
}

#[test]
fn generates_plausible_env() {
    let body = generate();
    assert!(body.contains("DB_PASSWORD="));
    assert!(body.contains("AWS_ACCESS_KEY_ID=AKIA"));
}

#[test]
fn dotenv_values_have_realistic_shapes() {
    for _ in 0..50 {
        let body = generate();
        for line in body.lines() {
            let Some((key, value)) = line.split_once('=') else {
                continue;
            };
            match key {
                "AWS_ACCESS_KEY_ID" => {
                    assert_eq!(value.len(), 20);
                    assert!(value.starts_with("AKIA"));
                }
                "AWS_SECRET_ACCESS_KEY" | "JWT_SECRET" => assert_eq!(value.len() % 4, 0),
                "DB_HOST" => {
                    let octets: Vec<u32> = value.split('.').map(|o| o.parse().unwrap()).collect();
                    assert_eq!(octets[..2], [10, 0]);
                    assert!(octets[2] <= 254 && (1..=254).contains(&octets[3]));
                }
                "DB_USERNAME" => assert!(value.ends_with("_user") && !value.contains('-')),
                _ => {}
            }
        }
    }
}

#[test]
fn env_files_are_recognised_in_any_case_of_suffix_only() {
    assert!(supports("/.env%00"));
    assert!(!supports("/.ENV"));
}
