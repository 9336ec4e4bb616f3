//! The trap's settings: where to listen and in which environment it runs.

use vstd::prelude::*;

use crate::errors::{error_with, Error};
use crate::text::{owned, push_str};

verus! {

/// The environment the trap runs in.
#[derive(Debug, PartialEq, Eq, Clone, Copy, Structural)]
pub enum Environment {
    Production,
    Development,
}

/// The environment a settings value names, if any.
pub open spec fn environment_named(name: Seq<char>) -> Option<Environment> {
    if name == "production"@ {
        Some(Environment::Production)
    } else if name == "development"@ {
        Some(Environment::Development)
    } else {
        None
    }
}

impl Environment {
    /// The environment named `production` or `development`; any other name
    /// is refused with `invalid environment: <name>`.
    pub fn from_name(name: &str) -> (res: Result<Environment, Error>)
        ensures
            match environment_named(name@) {
                Some(env) => res == Ok::<Environment, Error>(env),
                None => res matches Err(e) && error_with(e, "invalid environment: "@ + name@),
            },
    {
        let given = owned(name);
        if given == owned("production") {
            Ok(Environment::Production)
        } else if given == owned("development") {
            Ok(Environment::Development)
        } else {
            let mut message = owned("invalid environment: ");
            push_str(&mut message, name);
            Err(Error::Unknown(message))
        }
    }
}

/// Validated settings: both listen addresses are non-empty.
#[derive(Debug, PartialEq, Eq)]
pub struct Config {
    http_address: String,
    metrics_address: String,
    environment: Environment,
}

/// The abstract value of a `Config`.
pub struct ConfigView {
    pub http_address: Seq<char>,
    pub metrics_address: Seq<char>,
    pub environment: Environment,
}

impl View for Config {
    type V = ConfigView;

    closed spec fn view(&self) -> ConfigView {
        ConfigView {
            http_address: self.http_address@,
            metrics_address: self.metrics_address@,
            environment: self.environment,
        }
    }
}

/// What `Config::new` makes of its arguments: the settings, or the error for
/// the first empty address.
pub open spec fn config_outcome(
    res: Result<Config, Error>,
    http_address: Seq<char>,
    metrics_address: Seq<char>,
    environment: Environment,
) -> bool {
    if http_address.len() == 0 {
        res matches Err(e) && error_with(e, "http_address can't be empty"@)
    } else if metrics_address.len() == 0 {
        res matches Err(e) && error_with(e, "metrics_address can't be empty"@)
    } else {
        res matches Ok(c) && c@ == (ConfigView { http_address, metrics_address, environment })
    }
}

impl Config {
    /// Settings with the given addresses and environment; an empty address is
    /// refused.
    pub fn new(http_address: String, metrics_address: String, environment: Environment) -> (res:
        Result<Config, Error>)
        ensures
            config_outcome(res, http_address@, metrics_address@, environment),
    {
        if http_address.as_str().is_empty() {
            return Err(Error::Unknown(owned("http_address can't be empty")));
        }
        if metrics_address.as_str().is_empty() {
            return Err(Error::Unknown(owned("metrics_address can't be empty")));
        }
        Ok(Config { http_address, metrics_address, environment })
    }

    /// Settings read from a configuration file's three fields; the
    /// environment name is checked before the addresses.
    pub fn from_fields(http_address: String, metrics_address: String, environment: &str) -> (res:
        Result<Config, Error>)
        ensures
            match environment_named(environment@) {
                Some(env) => config_outcome(res, http_address@, metrics_address@, env),
                None => res matches Err(e) && error_with(e, "invalid environment: "@ + environment@),
            },
    {
        match Environment::from_name(environment) {
            Ok(env) => Config::new(http_address, metrics_address, env),
            Err(e) => Err(e),
        }
    }

    /// The address of the trap's HTTP listener.
    pub fn http_address(&self) -> (a: &str)
        ensures
            a@ == self@.http_address,
    {
        self.http_address.as_str()
    }

    /// The address of the metrics listener.
    pub fn metrics_address(&self) -> (a: &str)
        ensures
            a@ == self@.metrics_address,
    {
        self.metrics_address.as_str()
    }

    /// The environment.
    pub fn environment(&self) -> (e: &Environment)
        ensures
            *e == self@.environment,
    {
        &self.environment
    }
}

} // verus!
