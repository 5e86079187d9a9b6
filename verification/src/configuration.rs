//! The configuration the services start from. Loading the files is the
//! shell's work; the shapes and the environment-name rules live here.

use crate::errors::{ErrorView, MediaError};
use crate::text::str_eq;
use vstd::prelude::*;

verus! {

/// Which environment the process runs in.
#[derive(Clone, Copy, PartialEq, Eq, Structural, Debug)]
pub enum Environment {
    Local,
    Test,
    Production,
}

impl Environment {
    /// Reads an environment from its configured name. Anything but the
    /// three known names is rejected.
    pub fn parse(value: &str) -> (r: Result<Environment, MediaError>)
        ensures
            value@ == "local"@ ==> (r matches Ok(env) && env is Local),
            value@ == "test"@ ==> (r matches Ok(env) && env is Test),
            value@ == "production"@ ==> (r matches Ok(env) && env is Production),
            value@ != "local"@ && value@ != "test"@ && value@ != "production"@ ==> (r matches Err(
                e,
            ) && e@ matches ErrorView::Parse { message: m } && m == "invalid environment"@),
    {
        proof {
            reveal_strlit("local");
            reveal_strlit("test");
            reveal_strlit("production");
            // The lengths tell the three names apart.
            assert("local"@.len() == 5);
            assert("test"@.len() == 4);
            assert("production"@.len() == 10);
        }
        if str_eq(value, "local") {
            Ok(Environment::Local)
        } else if str_eq(value, "test") {
            Ok(Environment::Test)
        } else if str_eq(value, "production") {
            Ok(Environment::Production)
        } else {
            Err(MediaError::parse_error("invalid environment"))
        }
    }

    /// The configured name of this environment.
    pub fn as_str(&self) -> (r: &'static str)
        ensures
            *self is Local ==> r@ == "local"@,
            *self is Test ==> r@ == "test"@,
            *self is Production ==> r@ == "production"@,
    {
        match self {
            Environment::Local => "local",
            Environment::Test => "test",
            Environment::Production => "production",
        }
    }
}

/// The addresses the two processes listen on.
pub struct AppConfiguration {
    pub services_addr: String,
    pub gateway_addr: String,
}

/// One configured templated-CMS site.
pub struct UnifiedItemConfig {
    pub base_url: String,
}

/// The database connection settings.
pub struct DatabaseConfig {
    pub url: String,
}

/// The configuration structure as the user writes it.
pub struct UserConfiguration {
    pub app: AppConfiguration,
    pub database: DatabaseConfig,
    pub unified_channels: Vec<(String, UnifiedItemConfig)>,
    pub default_channel: String,
}

/// The full configuration: the user's settings together with the
/// environment the process was started in.
pub struct Configuration {
    pub environment: Environment,
    pub app: AppConfiguration,
    pub database: DatabaseConfig,
    pub unified_channels: Vec<(String, UnifiedItemConfig)>,
    pub default_channel: String,
}

impl Configuration {
    /// Composes the full configuration out of the user's settings and
    /// the environment they were loaded for.
    pub fn from_user_configuration(environment: Environment, user: UserConfiguration) -> (c:
        Configuration)
        ensures
            c.environment == environment,
            c.app == user.app,
            c.database == user.database,
            c.unified_channels == user.unified_channels,
            c.default_channel == user.default_channel,
    {
        Configuration {
            environment,
            app: user.app,
            database: user.database,
            unified_channels: user.unified_channels,
            default_channel: user.default_channel,
        }
    }
}

} // verus!
