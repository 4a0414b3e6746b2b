//! Configuration data for the proxy: the upstream address, the credential the
//! pool is provisioned from, and the token pool's sizing. Loading from a file
//! or the environment happens outside the library; validation happens here.

use vstd::prelude::*;
use vstd::string::*;

use crate::error::TppError;
use crate::text::{dec_str, push_decimal};

verus! {

/// User credential for upstream login.
pub struct Credential {
    pub username: String,
    pub password: String,
}

/// The mathematical value of a `Credential`.
pub struct CredentialV {
    pub username: Seq<char>,
    pub password: Seq<char>,
}

impl View for Credential {
    type V = CredentialV;

    open spec fn view(&self) -> CredentialV {
        CredentialV { username: self.username@, password: self.password@ }
    }
}

impl Clone for Credential {
    fn clone(&self) -> (c: Self)
        ensures
            c@ == self@,
    {
        Credential { username: self.username.clone(), password: self.password.clone() }
    }
}

/// Upstream server configuration.
pub struct UpstreamConfig {
    pub host: String,
    pub port: u16,
    pub tls: bool,
}

impl UpstreamConfig {
    /// The scheme the upstream is reached over.
    pub open spec fn scheme_view(&self) -> Seq<char> {
        if self.tls {
            "https"@
        } else {
            "http"@
        }
    }

    /// The upstream address as `host:port`.
    pub fn address(&self) -> (r: String)
        ensures
            r@ == self.host@ + ":"@ + dec_str(self.port as int),
    {
        let mut s = self.host.clone();
        s.append(":");
        push_decimal(&mut s, self.port as u64);
        proof {
            assert(s@ =~= self.host@ + ":"@ + dec_str(self.port as int));
        }
        s
    }

    /// The base URL for API calls: `scheme://host:port`.
    pub fn base_url(&self) -> (r: String)
        ensures
            r@ == self.scheme_view() + "://"@ + self.host@ + ":"@ + dec_str(self.port as int),
    {
        let scheme: &str = if self.tls {
            "https"
        } else {
            "http"
        };
        let mut s = scheme.to_owned();
        s.append("://");
        s.append(self.host.as_str());
        s.append(":");
        push_decimal(&mut s, self.port as u64);
        proof {
            assert(s@ =~= self.scheme_view() + "://"@ + self.host@ + ":"@ + dec_str(
                self.port as int,
            ));
        }
        s
    }
}

impl Clone for UpstreamConfig {
    fn clone(&self) -> (c: Self)
        ensures
            c.host@ == self.host@,
            c.port == self.port,
            c.tls == self.tls,
    {
        UpstreamConfig { host: self.host.clone(), port: self.port, tls: self.tls }
    }
}

/// Telemetry configuration carried in the config file.
pub struct TelemetryConfig {
    /// OTLP endpoint for exporting traces and metrics.
    pub otlp_endpoint: Option<String>,
    /// Log filter, for example `info` or `debug`.
    pub log_filter: Option<String>,
}

impl Default for TelemetryConfig {
    fn default() -> (c: Self)
        ensures
            c.otlp_endpoint is None,
            c.log_filter is None,
    {
        TelemetryConfig { otlp_endpoint: None, log_filter: None }
    }
}

/// The pool size used when the configuration names none.
pub fn default_pool_size() -> (r: usize)
    ensures
        r == 10,
{
    10
}

/// The token TTL in seconds used when the configuration names none.
pub fn default_token_ttl() -> (r: u64)
    ensures
        r == 3600,
{
    3600
}

/// The expiry check interval in seconds used when the configuration names none.
pub fn default_refresh_interval() -> (r: u64)
    ensures
        r == 60,
{
    60
}

/// Token pool sizing and refresh schedule.
pub struct TokenConfig {
    /// Number of tokens to acquire (pool size).
    pub pool_size: usize,
    /// Token TTL in seconds.
    pub ttl_seconds: u64,
    /// How often to check for expired tokens, in seconds.
    pub refresh_check_seconds: u64,
}

impl Default for TokenConfig {
    fn default() -> (c: Self)
        ensures
            c.pool_size == 10,
            c.ttl_seconds == 3600,
            c.refresh_check_seconds == 60,
    {
        TokenConfig {
            pool_size: default_pool_size(),
            ttl_seconds: default_token_ttl(),
            refresh_check_seconds: default_refresh_interval(),
        }
    }
}

impl Clone for TokenConfig {
    fn clone(&self) -> (c: Self)
        ensures
            c.pool_size == self.pool_size,
            c.ttl_seconds == self.ttl_seconds,
            c.refresh_check_seconds == self.refresh_check_seconds,
    {
        TokenConfig {
            pool_size: self.pool_size,
            ttl_seconds: self.ttl_seconds,
            refresh_check_seconds: self.refresh_check_seconds,
        }
    }
}

/// Main configuration structure.
pub struct Config {
    /// Listen address, for example `0.0.0.0:8080`.
    pub listen: String,
    /// Health check server listen address, if any.
    pub health_listen: Option<String>,
    /// Upstream server configuration.
    pub upstream: UpstreamConfig,
    /// The single credential the whole pool is provisioned from.
    pub credential: Credential,
    /// Token configuration.
    pub token: TokenConfig,
    /// Telemetry configuration.
    pub telemetry: TelemetryConfig,
}

impl Config {
    /// All the conditions `validate` checks, together.
    pub open spec fn is_valid(&self) -> bool {
        &&& self.listen@.len() != 0
        &&& self.upstream.host@.len() != 0
        &&& self.upstream.port != 0
        &&& self.credential.username@.len() != 0
        &&& self.token.pool_size != 0
    }

    /// Checks the configuration, reporting the first problem found in the
    /// order: listen address, upstream host, upstream port, username,
    /// pool size.
    pub fn validate(&self) -> (r: Result<(), TppError>)
        ensures
            r is Ok <==> self.is_valid(),
            self.listen@.len() == 0 ==> (r matches Err(TppError::Config(m)) && m@
                == "'listen' address is required"@),
            self.listen@.len() != 0 && self.upstream.host@.len() == 0 ==> (r matches Err(
                TppError::Config(m),
            ) && m@ == "'upstream.host' is required"@),
            self.listen@.len() != 0 && self.upstream.host@.len() != 0 && self.upstream.port == 0
                ==> (r matches Err(TppError::Config(m)) && m@ == "'upstream.port' must be > 0"@),
            self.listen@.len() != 0 && self.upstream.host@.len() != 0 && self.upstream.port != 0
                && self.credential.username@.len() == 0 ==> (r matches Err(TppError::Config(m))
                && m@ == "'credential.username' is required"@),
            self.listen@.len() != 0 && self.upstream.host@.len() != 0 && self.upstream.port != 0
                && self.credential.username@.len() != 0 && self.token.pool_size == 0 ==> (
            r matches Err(TppError::Config(m)) && m@ == "'token.pool_size' must be > 0"@),
    {
        if self.listen.as_str().is_empty() {
            return Err(TppError::Config("'listen' address is required".to_owned()));
        }
        if self.upstream.host.as_str().is_empty() {
            return Err(TppError::Config("'upstream.host' is required".to_owned()));
        }
        if self.upstream.port == 0 {
            return Err(TppError::Config("'upstream.port' must be > 0".to_owned()));
        }
        if self.credential.username.as_str().is_empty() {
            return Err(TppError::Config("'credential.username' is required".to_owned()));
        }
        if self.token.pool_size == 0 {
            return Err(TppError::Config("'token.pool_size' must be > 0".to_owned()));
        }
        Ok(())
    }
}

} // verus!
