//! The decoys, one per kind of file that scanners probe for.

pub mod alphabet;
pub mod any;
pub mod random;
pub mod render;
pub mod gitconfig;
pub mod dotenv;
pub mod aws_credentials;
pub mod ini;
pub mod aws_config;
pub mod phpinfo;
pub mod wp_login;

pub use aws_config::AwsConfigGenerator;
pub use aws_credentials::AwsCredentialsGenerator;
pub use dotenv::DotEnvGenerator;
pub use gitconfig::GitConfigGenerator;
pub use phpinfo::PhpInfoGenerator;
pub use wp_login::WpLoginGenerator;
pub use any::Generator;
