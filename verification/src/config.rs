//! Settings of the backend, and how they are read from the variables of the
//! environment.

use crate::text::{
    parse_u16, same_text, split_and_trim, text_view, texts, trimmed_pieces, unsigned_decimal,
};
use vstd::prelude::*;
use vstd::string::*;

verus! {

/// Settings of the whole backend.
#[derive(Debug, Clone)]
pub struct Config {
    pub database_url: String,
    pub host: String,
    pub port: u16,
    pub cors_origins: Vec<String>,
    pub environment: String,
    pub clerk: ClerkConfig,
}

/// Settings of token verification.
#[derive(Debug, Clone)]
pub struct ClerkConfig {
    /// Where the identity provider publishes its key set.
    pub jwks_url: String,
    /// The issuer every accepted token must name.
    pub issuer: String,
    /// The audience an accepted token must name; `None` switches the
    /// audience check off.
    pub audience: Option<String>,
}

/// Why the settings could not be assembled.
#[derive(Debug)]
pub enum ConfigError {
    /// A required variable is not set.
    Missing(String),
    /// A variable holds a value that cannot be used.
    Invalid(String),
}

/// The mathematical value of a [`ClerkConfig`].
pub struct ClerkConfigView {
    pub jwks_url: Seq<char>,
    pub issuer: Seq<char>,
    pub audience: Option<Seq<char>>,
}

/// The mathematical value of a [`Config`].
pub struct ConfigView {
    pub database_url: Seq<char>,
    pub host: Seq<char>,
    pub port: u16,
    pub cors_origins: Seq<Seq<char>>,
    pub environment: Seq<char>,
    pub clerk: ClerkConfigView,
}

/// The mathematical value of a [`ConfigError`].
pub enum ConfigErrorView {
    Missing(Seq<char>),
    Invalid(Seq<char>),
}

impl View for ClerkConfig {
    type V = ClerkConfigView;

    open spec fn view(&self) -> ClerkConfigView {
        ClerkConfigView {
            jwks_url: self.jwks_url@,
            issuer: self.issuer@,
            audience: text_view(self.audience),
        }
    }
}

impl View for Config {
    type V = ConfigView;

    open spec fn view(&self) -> ConfigView {
        ConfigView {
            database_url: self.database_url@,
            host: self.host@,
            port: self.port,
            cors_origins: texts(self.cors_origins@),
            environment: self.environment@,
            clerk: self.clerk@,
        }
    }
}

impl View for ConfigError {
    type V = ConfigErrorView;

    open spec fn view(&self) -> ConfigErrorView {
        match self {
            ConfigError::Missing(name) => ConfigErrorView::Missing(name@),
            ConfigError::Invalid(reason) => ConfigErrorView::Invalid(reason@),
        }
    }
}

/// The text of an error, as it is shown.
pub open spec fn config_error_text(error: ConfigErrorView) -> Seq<char> {
    match error {
        ConfigErrorView::Missing(name) => "Missing environment variable: "@ + name,
        ConfigErrorView::Invalid(reason) => "Invalid configuration: "@ + reason,
    }
}

impl ConfigError {
    /// The text of the error, as it is shown.
    pub fn message(&self) -> (text: String)
        ensures
            text@ == config_error_text(self@),
    {
        match self {
            ConfigError::Missing(name) => String::from_str("Missing environment variable: ").concat(
                name.as_str(),
            ),
            ConfigError::Invalid(reason) => String::from_str("Invalid configuration: ").concat(
                reason.as_str(),
            ),
        }
    }
}

/// The values of the variables that the settings are read from; `None`
/// where a variable is not set.
#[derive(Debug, Clone)]
pub struct Environment {
    /// `DATABASE_URL`
    pub database_url: Option<String>,
    /// `HOST`
    pub host: Option<String>,
    /// `PORT`
    pub port: Option<String>,
    /// `CORS_ORIGINS`
    pub cors_origins: Option<String>,
    /// `NODE_ENV`
    pub node_env: Option<String>,
    /// `CLERK_ISSUER`
    pub clerk_issuer: Option<String>,
    /// `CLERK_JWKS_URL`
    pub clerk_jwks_url: Option<String>,
    /// `CLERK_AUDIENCE`
    pub clerk_audience: Option<String>,
}

/// The value of a variable, or a default where it is not set.
pub open spec fn value_or(value: Option<String>, default: Seq<char>) -> Seq<char> {
    match value {
        Some(text) => text@,
        None => default,
    }
}

/// The address of the key set of an issuer, where none is configured.
pub open spec fn default_jwks_url(issuer: Seq<char>) -> Seq<char> {
    issuer + "/.well-known/jwks.json"@
}

/// The settings of token verification for an issuer.
pub open spec fn clerk_settings(
    issuer: Seq<char>,
    jwks_url: Option<String>,
    audience: Option<String>,
) -> ClerkConfigView {
    ClerkConfigView {
        jwks_url: value_or(jwks_url, default_jwks_url(issuer)),
        issuer,
        audience: text_view(audience),
    }
}

/// The settings that an environment gives. The database address and the
/// issuer are required; the port must be a number up to 65535; everything
/// else has a default.
pub open spec fn settings(env: Environment) -> Result<ConfigView, ConfigErrorView> {
    if env.database_url is None {
        Err(ConfigErrorView::Missing("DATABASE_URL"@))
    } else if unsigned_decimal(value_or(env.port, "3001"@), 65535) is None {
        Err(ConfigErrorView::Invalid("PORT must be a valid number"@))
    } else if env.clerk_issuer is None {
        Err(ConfigErrorView::Missing("CLERK_ISSUER"@))
    } else {
        Ok(
            ConfigView {
                database_url: env.database_url->0@,
                host: value_or(env.host, "0.0.0.0"@),
                port: unsigned_decimal(value_or(env.port, "3001"@), 65535)->0 as u16,
                cors_origins: trimmed_pieces(
                    value_or(env.cors_origins, "http://localhost:3000,http://localhost:5173"@),
                ),
                environment: value_or(env.node_env, "development"@),
                clerk: clerk_settings(env.clerk_issuer->0@, env.clerk_jwks_url, env.clerk_audience),
            },
        )
    }
}

/// The value of a variable, or a default where it is not set.
fn or_default(value: Option<String>, default: &str) -> (text: String)
    ensures
        text@ == value_or(value, default@),
{
    match value {
        Some(text) => text,
        None => String::from_str(default),
    }
}

impl ClerkConfig {
    /// The settings of token verification for an issuer. Where no address
    /// of the key set is given, it is the well-known one of the issuer.
    pub fn new(issuer: String, jwks_url: Option<String>, audience: Option<String>) -> (config: Self)
        ensures
            config@ == clerk_settings(issuer@, jwks_url, audience),
    {
        let jwks_url = match jwks_url {
            Some(url) => url,
            None => issuer.clone().concat("/.well-known/jwks.json"),
        };
        ClerkConfig { jwks_url, issuer, audience }
    }
}

impl Config {
    /// Assembles the settings from the values of the environment.
    pub fn from_env(env: Environment) -> (r: Result<Config, ConfigError>)
        ensures
            match settings(env) {
                Ok(config) => r matches Ok(c) && c@ == config,
                Err(error) => r matches Err(e) && e@ == error,
            },
    {
        let database_url = match env.database_url {
            Some(url) => url,
            None => { return Err(ConfigError::Missing(String::from_str("DATABASE_URL"))); },
        };
        let host = or_default(env.host, "0.0.0.0");
        let port = match parse_u16(or_default(env.port, "3001").as_str()) {
            Some(port) => port,
            None => {
                return Err(ConfigError::Invalid(String::from_str("PORT must be a valid number")));
            },
        };
        let cors_origins = split_and_trim(
            or_default(env.cors_origins, "http://localhost:3000,http://localhost:5173").as_str(),
        );
        let environment = or_default(env.node_env, "development");
        let issuer = match env.clerk_issuer {
            Some(issuer) => issuer,
            None => { return Err(ConfigError::Missing(String::from_str("CLERK_ISSUER"))); },
        };
        let clerk = ClerkConfig::new(issuer, env.clerk_jwks_url, env.clerk_audience);
        Ok(Config { database_url, host, port, cors_origins, environment, clerk })
    }

    /// Whether the backend runs in production.
    pub fn is_production(&self) -> (production: bool)
        ensures
            production == (self@.environment == "production"@),
    {
        same_text(self.environment.as_str(), "production")
    }
}

} // verus!
