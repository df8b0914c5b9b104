use vstd::prelude::*;

use crate::text::{has_text, has_text_seq, owned};

verus! {

/// Heartbeat timeout of a production agent connection, in seconds.
pub const PRODUCTION_HEARTBEAT_TIMEOUT_SECS: u64 = 45;

/// Interval between two sweeps for stale agent connections, in seconds.
pub const PRODUCTION_SWEEP_INTERVAL_SECS: u64 = 5;

/// Settings of the agent gateway: the shared agent token and the
/// connection timing, in whole seconds.
#[derive(Debug, Clone)]
pub struct AgentGatewayConfig {
    pub agent_token: String,
    pub heartbeat_timeout_secs: u64,
    pub sweep_interval_secs: u64,
}

impl AgentGatewayConfig {
    /// The production gateway settings for the given agent token.
    pub fn production(agent_token: String) -> (config: Self)
        ensures
            config.agent_token@ == agent_token@,
            config.heartbeat_timeout_secs == PRODUCTION_HEARTBEAT_TIMEOUT_SECS,
            config.sweep_interval_secs == PRODUCTION_SWEEP_INTERVAL_SECS,
    {
        AgentGatewayConfig {
            agent_token,
            heartbeat_timeout_secs: PRODUCTION_HEARTBEAT_TIMEOUT_SECS,
            sweep_interval_secs: PRODUCTION_SWEEP_INTERVAL_SECS,
        }
    }
}

/// The address the server listens on when none is configured.
pub const DEFAULT_BIND_ADDR: &'static str = "0.0.0.0:8080";

/// Settings of the server. The bind address is kept as its text, which the
/// caller has already found to be a socket address.
#[derive(Debug, Clone)]
pub struct ServerConfig {
    pub database_url: String,
    pub agent_token: String,
    pub admin_token: Option<String>,
    pub bind_addr: String,
}

#[derive(Debug, Clone, PartialEq, Eq)]
pub enum ServerConfigError {
    MissingDatabaseUrl,
    MissingAgentToken,
    InvalidBindAddr(String),
}

impl ServerConfigError {
    /// The error's message.
    pub fn message(&self) -> (r: String)
        ensures
            r@ == match self {
                ServerConfigError::MissingDatabaseUrl => "DATABASE_URL is required"@,
                ServerConfigError::MissingAgentToken => "FOSTER_AGENT_TOKEN is required"@,
                ServerConfigError::InvalidBindAddr(value) => "invalid FOSTER_BIND_ADDR: "@
                    + value@,
            },
    {
        match self {
            ServerConfigError::MissingDatabaseUrl => owned("DATABASE_URL is required"),
            ServerConfigError::MissingAgentToken => owned("FOSTER_AGENT_TOKEN is required"),
            ServerConfigError::InvalidBindAddr(value) => {
                let mut r = owned("invalid FOSTER_BIND_ADDR: ");
                r.append(value.as_str());
                r
            },
        }
    }
}

/// The bind address text: the configured one, else the default.
pub open spec fn bind_addr_text_spec(configured: Option<Seq<char>>) -> Seq<char> {
    match configured {
        Some(text) => text,
        None => DEFAULT_BIND_ADDR@,
    }
}

/// The text of the bind address to parse: the configured value, else the
/// default address.
pub fn bind_addr_text(configured: Option<String>) -> (r: String)
    ensures
        r@ == bind_addr_text_spec(configured.deep_view()),
{
    match configured {
        Some(text) => text,
        None => owned(DEFAULT_BIND_ADDR),
    }
}

/// The admin token: a configured value that holds text other than
/// whitespace; a blank one counts as none.
pub fn admin_token_of(configured: Option<String>) -> (r: Option<String>)
    ensures
        match configured {
            Some(token) => if has_text_seq(token@) {
                r matches Some(t) && t@ == token@
            } else {
                r is None
            },
            None => r is None,
        },
{
    match configured {
        Some(token) => if has_text(token.as_str()) {
            Some(token)
        } else {
            None
        },
        None => None,
    }
}

impl ServerConfig {
    /// The server settings from the configured values: the database URL
    /// and the agent token are required, in that order; then the bind
    /// address text (the configured one or the default) must be a socket
    /// address, which `bind_addr_parses` reports.
    pub fn from_values(
        database_url: Option<String>,
        agent_token: Option<String>,
        admin_token: Option<String>,
        bind_addr: Option<String>,
        bind_addr_parses: bool,
    ) -> (r: Result<ServerConfig, ServerConfigError>)
        ensures
            database_url is None ==> r == Err::<ServerConfig, ServerConfigError>(
                ServerConfigError::MissingDatabaseUrl,
            ),
            database_url is Some && agent_token is None ==> r == Err::<
                ServerConfig,
                ServerConfigError,
            >(ServerConfigError::MissingAgentToken),
            database_url is Some && agent_token is Some && !bind_addr_parses ==> (r matches Err(
                ServerConfigError::InvalidBindAddr(text),
            ) && text@ == bind_addr_text_spec(bind_addr.deep_view())),
            database_url is Some && agent_token is Some && bind_addr_parses ==> (r matches Ok(c)
                && c.database_url@ == database_url->0@ && c.agent_token@ == agent_token->0@
                && c.bind_addr@ == bind_addr_text_spec(bind_addr.deep_view()) && (match admin_token {
                Some(token) => if has_text_seq(token@) {
                    c.admin_token matches Some(t) && t@ == token@
                } else {
                    c.admin_token is None
                },
                None => c.admin_token is None,
            })),
    {
        let database_url = match database_url {
            Some(value) => value,
            None => return Err(ServerConfigError::MissingDatabaseUrl),
        };
        let agent_token = match agent_token {
            Some(value) => value,
            None => return Err(ServerConfigError::MissingAgentToken),
        };
        let admin_token = admin_token_of(admin_token);
        let bind_addr = bind_addr_text(bind_addr);
        if !bind_addr_parses {
            return Err(ServerConfigError::InvalidBindAddr(bind_addr));
        }
        Ok(ServerConfig { database_url, agent_token, admin_token, bind_addr })
    }
}

} // verus!
