//! The configuration that the service is started with.
//!
//! These are plain values. Reading them from files and from the environment
//! is the caller's business; the library is handed the result once, at
//! startup, and does not change it.

use vstd::prelude::*;
use vstd::string::*;

verus! {

/// Everything the service is configured with.
#[derive(Clone, Debug)]
pub struct Settings {
    pub application: ApplicationSettings,
    pub debug: bool,
    pub database: DatabaseSettings,
    pub redis: RedisSettings,
    pub secret: Secret,
    pub email: EmailSettings,
    pub frontend_url: String,
}

/// Where the application listens and how it is reached from outside.
#[derive(Clone, Debug)]
pub struct ApplicationSettings {
    pub port: u16,
    pub host: String,
    pub base_url: String,
    pub protocol: String,
}

/// How to reach the relational store.
#[derive(Clone, Debug)]
pub struct DatabaseSettings {
    pub username: String,
    pub password: String,
    pub port: u16,
    pub host: String,
    pub database_name: String,
    pub require_ssl: bool,
}

/// How to reach the key-value store and how to pool connections to it.
#[derive(Clone, Debug)]
pub struct RedisSettings {
    pub uri: String,
    pub pool_max_open: u64,
    pub pool_max_idle: u64,
    pub pool_timeout_seconds: u64,
    pub pool_expire_seconds: u64,
}

/// The secrets that tokens are made with, and the lifetime of a confirmation
/// token in minutes.
#[derive(Clone, Debug)]
pub struct Secret {
    pub secret_key: String,
    pub token_expiration: i64,
    pub hmac_secret: String,
}

/// How to reach the mail server.
#[derive(Clone, Debug)]
pub struct EmailSettings {
    pub host: String,
    pub host_user: String,
    pub host_user_password: String,
}

/// The environment the application runs in.
#[derive(Clone, Copy, Debug, PartialEq, Eq, Structural)]
pub enum Environment {
    Development,
    Production,
}

/// The text that `str::to_lowercase` makes of `text`: each character replaced
/// by its lowercase form under Unicode's default case mapping.
pub uninterp spec fn lowercased(text: Seq<char>) -> Seq<char>;

/// `str::to_lowercase`. The result depends on the text alone; it is what
/// `lowercased` names.
#[verifier::external_body]
fn to_lowercase(text: &str) -> (lowered: String)
    ensures
        lowered@ == lowercased(text@),
{
    text.to_lowercase()
}

/// What is said of a name that is no environment.
pub open spec fn unsupported_environment(name: Seq<char>) -> Seq<char> {
    name + " is not a supported environment. Use either `development` or `production`."@
}

/// The environment that an all-lowercase name stands for, or what is said of
/// the name if it stands for none.
pub open spec fn environment_named(name: Seq<char>) -> Result<Environment, Seq<char>> {
    if name == "development"@ {
        Ok(Environment::Development)
    } else if name == "production"@ {
        Ok(Environment::Production)
    } else {
        Err(unsupported_environment(name))
    }
}

impl Environment {
    /// The name of the environment, as it appears in the names of
    /// configuration files.
    pub open spec fn name(self) -> Seq<char> {
        match self {
            Environment::Development => "development"@,
            Environment::Production => "production"@,
        }
    }

    /// The name of the environment.
    pub fn as_str(&self) -> (name: &'static str)
        ensures
            name@ == self.name(),
    {
        match self {
            Environment::Development => "development",
            Environment::Production => "production",
        }
    }

    /// The environment that `name` stands for, whatever the case of its
    /// letters.
    pub fn try_from(name: String) -> (environment: Result<Environment, String>)
        ensures
            match environment {
                Ok(e) => environment_named(lowercased(name@)) == Ok::<Environment, Seq<char>>(e),
                Err(message) => environment_named(lowercased(name@)) == Err::<
                    Environment,
                    Seq<char>,
                >(message@),
            },
    {
        Environment::from_lowercase(to_lowercase(name.as_str()))
    }

    /// The environment that an all-lowercase name stands for.
    pub fn from_lowercase(name: String) -> (environment: Result<Environment, String>)
        ensures
            match environment {
                Ok(e) => environment_named(name@) == Ok::<Environment, Seq<char>>(e),
                Err(message) => environment_named(name@) == Err::<Environment, Seq<char>>(
                    message@,
                ),
            },
    {
        proof {
            reveal_strlit("development");
            reveal_strlit("production");
        }
        if name == String::from_str("development") {
            Ok(Environment::Development)
        } else if name == String::from_str("production") {
            Ok(Environment::Production)
        } else {
            Err(
                name.concat(
                    " is not a supported environment. Use either `development` or `production`.",
                ),
            )
        }
    }
}

/// The two names stand for the two environments.
pub proof fn environment_names_round_trip(environment: Environment)
    ensures
        environment_named(environment.name()) == Ok::<Environment, Seq<char>>(environment),
{
    reveal_strlit("development");
    reveal_strlit("production");
    assert("development"@.len() != "production"@.len());
}

} // verus!
