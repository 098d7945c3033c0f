//! The provider configuration, checked once at startup.
use vstd::prelude::*;

use crate::text::opt_view;
use crate::urls::{parse_url, parsed_url, parses_as_url};

verus! {

/// Path, under the service's origin, to which the provider sends the browser back.
pub const REDIRECT_PATH: &'static str = "/login/finalize";

/// One of the settings that the configuration is read from.
#[derive(Clone, Copy, Debug, PartialEq, Eq, Structural)]
pub enum ConfigVar {
    Origin,
    AuthIssuer,
    AuthClientId,
    AuthClientSecret,
}

/// Names of the environment variables the settings are read from.
pub const ORIGIN: &'static str = "ORIGIN";
pub const AUTH_ISSUER: &'static str = "AUTH_ISSUER";
pub const AUTH_CLIENT_ID: &'static str = "AUTH_CLIENT_ID";
pub const AUTH_CLIENT_SECRET: &'static str = "AUTH_CLIENT_SECRET";

/// The environment variable of each setting.
pub open spec fn var_name(v: ConfigVar) -> Seq<char> {
    match v {
        ConfigVar::Origin => ORIGIN@,
        ConfigVar::AuthIssuer => AUTH_ISSUER@,
        ConfigVar::AuthClientId => AUTH_CLIENT_ID@,
        ConfigVar::AuthClientSecret => AUTH_CLIENT_SECRET@,
    }
}

impl ConfigVar {
    /// The name of the environment variable that holds this setting.
    pub fn name(&self) -> (r: &'static str)
        ensures
            r@ == var_name(*self),
    {
        match self {
            ConfigVar::Origin => ORIGIN,
            ConfigVar::AuthIssuer => AUTH_ISSUER,
            ConfigVar::AuthClientId => AUTH_CLIENT_ID,
            ConfigVar::AuthClientSecret => AUTH_CLIENT_SECRET,
        }
    }
}

/// Why a configuration was refused.
#[derive(Clone, Copy, Debug, PartialEq, Eq, Structural)]
pub enum ConfigError {
    Missing(ConfigVar),
    InvalidIssuerUrl,
    InvalidRedirectUrl,
}

/// Settings of the identity provider: where it lives, where it sends the
/// browser back, and the client credentials registered with it.
pub struct Config {
    pub issuer_url: url::Url,
    pub redirect_url: url::Url,
    pub client_id: String,
    pub client_secret: String,
}

/// The redirect URL's text for a given origin.
pub open spec fn redirect_text(origin: Seq<char>) -> Seq<char> {
    origin + REDIRECT_PATH@
}

/// What reading the four settings yields: the first missing or malformed
/// setting, in the order origin, issuer, issuer URL, redirect URL, client id,
/// client secret.
pub open spec fn config_outcome(
    origin: Option<Seq<char>>,
    issuer: Option<Seq<char>>,
    client_id: Option<Seq<char>>,
    client_secret: Option<Seq<char>>,
) -> Result<(), ConfigError> {
    if origin is None {
        Err(ConfigError::Missing(ConfigVar::Origin))
    } else if issuer is None {
        Err(ConfigError::Missing(ConfigVar::AuthIssuer))
    } else if !parses_as_url(issuer->0) {
        Err(ConfigError::InvalidIssuerUrl)
    } else if !parses_as_url(redirect_text(origin->0)) {
        Err(ConfigError::InvalidRedirectUrl)
    } else if client_id is None {
        Err(ConfigError::Missing(ConfigVar::AuthClientId))
    } else if client_secret is None {
        Err(ConfigError::Missing(ConfigVar::AuthClientSecret))
    } else {
        Ok(())
    }
}

impl Config {
    /// Builds the configuration from the four settings, each `None` where it
    /// is not set. The issuer URL is parsed from the issuer setting and the
    /// redirect URL from the origin followed by `/login/finalize`.
    pub fn from_vars(
        origin: Option<String>,
        issuer: Option<String>,
        client_id: Option<String>,
        client_secret: Option<String>,
    ) -> (r: Result<Config, ConfigError>)
        ensures
            origin is None || issuer is None || client_id is None || client_secret is None
                ==> r is Err,
            match config_outcome(
                opt_view(origin),
                opt_view(issuer),
                opt_view(client_id),
                opt_view(client_secret),
            ) {
                Err(e) => r == Err::<Config, ConfigError>(e),
                Ok(()) => r is Ok && r->Ok_0.issuer_url == parsed_url(issuer->0@)
                    && r->Ok_0.redirect_url == parsed_url(redirect_text(origin->0@))
                    && r->Ok_0.client_id@ == client_id->0@
                    && r->Ok_0.client_secret@ == client_secret->0@,
            },
    {
        let origin = match origin {
            Some(o) => o,
            None => return Err(ConfigError::Missing(ConfigVar::Origin)),
        };
        let issuer = match issuer {
            Some(i) => i,
            None => return Err(ConfigError::Missing(ConfigVar::AuthIssuer)),
        };
        let issuer_url = match parse_url(issuer.as_str()) {
            Ok(u) => u,
            Err(_) => return Err(ConfigError::InvalidIssuerUrl),
        };
        let redirect = origin.concat(REDIRECT_PATH);
        let redirect_url = match parse_url(redirect.as_str()) {
            Ok(u) => u,
            Err(_) => return Err(ConfigError::InvalidRedirectUrl),
        };
        let client_id = match client_id {
            Some(c) => c,
            None => return Err(ConfigError::Missing(ConfigVar::AuthClientId)),
        };
        let client_secret = match client_secret {
            Some(c) => c,
            None => return Err(ConfigError::Missing(ConfigVar::AuthClientSecret)),
        };
        Ok(Config { issuer_url, redirect_url, client_id, client_secret })
    }
}

} // verus!
