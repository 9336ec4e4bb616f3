//! Any one of the decoy generators, so that a dispatcher can hold a list of
//! them.

use vstd::prelude::*;

use super::aws_config::AwsConfigGenerator;
use super::aws_credentials::AwsCredentialsGenerator;
use super::dotenv::DotEnvGenerator;
use super::gitconfig::GitConfigGenerator;
use super::phpinfo::PhpInfoGenerator;
use super::wp_login::WpLoginGenerator;
use crate::domain::generator::PayloadGenerator;
use crate::domain::payload::{Payload, PayloadView};
use crate::domain::request::{Request, RequestView};

verus! {

/// One of the decoy generators.
#[derive(Clone, Copy)]
pub enum Generator {
    PhpInfo(PhpInfoGenerator),
    DotEnv(DotEnvGenerator),
    GitConfig(GitConfigGenerator),
    AwsCredentials(AwsCredentialsGenerator),
    AwsConfig(AwsConfigGenerator),
    WpLogin(WpLoginGenerator),
}

impl PayloadGenerator for Generator {
    open spec fn spec_name(&self) -> Seq<char> {
        match self {
            Generator::PhpInfo(g) => g.spec_name(),
            Generator::DotEnv(g) => g.spec_name(),
            Generator::GitConfig(g) => g.spec_name(),
            Generator::AwsCredentials(g) => g.spec_name(),
            Generator::AwsConfig(g) => g.spec_name(),
            Generator::WpLogin(g) => g.spec_name(),
        }
    }

    open spec fn handles(&self, request: RequestView) -> bool {
        match self {
            Generator::PhpInfo(g) => g.handles(request),
            Generator::DotEnv(g) => g.handles(request),
            Generator::GitConfig(g) => g.handles(request),
            Generator::AwsCredentials(g) => g.handles(request),
            Generator::AwsConfig(g) => g.handles(request),
            Generator::WpLogin(g) => g.handles(request),
        }
    }

    open spec fn produces(&self, request: RequestView, payload: PayloadView) -> bool {
        match self {
            Generator::PhpInfo(g) => g.produces(request, payload),
            Generator::DotEnv(g) => g.produces(request, payload),
            Generator::GitConfig(g) => g.produces(request, payload),
            Generator::AwsCredentials(g) => g.produces(request, payload),
            Generator::AwsConfig(g) => g.produces(request, payload),
            Generator::WpLogin(g) => g.produces(request, payload),
        }
    }

    fn name(&self) -> (n: &'static str) {
        match self {
            Generator::PhpInfo(g) => g.name(),
            Generator::DotEnv(g) => g.name(),
            Generator::GitConfig(g) => g.name(),
            Generator::AwsCredentials(g) => g.name(),
            Generator::AwsConfig(g) => g.name(),
            Generator::WpLogin(g) => g.name(),
        }
    }

    fn supports(&self, request: &Request) -> (b: bool) {
        match self {
            Generator::PhpInfo(g) => g.supports(request),
            Generator::DotEnv(g) => g.supports(request),
            Generator::GitConfig(g) => g.supports(request),
            Generator::AwsCredentials(g) => g.supports(request),
            Generator::AwsConfig(g) => g.supports(request),
            Generator::WpLogin(g) => g.supports(request),
        }
    }

    fn generate(&self, request: &Request) -> (p: Payload) {
        match self {
            Generator::PhpInfo(g) => g.generate(request),
            Generator::DotEnv(g) => g.generate(request),
            Generator::GitConfig(g) => g.generate(request),
            Generator::AwsCredentials(g) => g.generate(request),
            Generator::AwsConfig(g) => g.generate(request),
            Generator::WpLogin(g) => g.generate(request),
        }
    }
}

} // verus!
