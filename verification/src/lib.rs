//! A trap for malicious crawlers: it recognises the files that scanners probe
//! for (`.env`, `.git/config`, AWS credentials, `phpinfo()` pages, WordPress
//! logins) and answers each with a plausible decoy.

pub mod text;
pub mod decoding;
pub mod domain;
pub mod adapters;
pub mod config;
pub mod errors;
pub mod app;
pub mod entrypoints;
