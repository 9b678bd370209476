//! Application configuration, shared state and the service handles built on it.
use std::sync::Arc;
use vstd::prelude::*;

use crate::outside::port_number;
use crate::outside::port_number_of;

verus! {

/// Fallback database location when none is configured.
pub const DEFAULT_DATABASE_URL: &'static str = "postgresql://localhost/yourwallet";

/// Fallback cache location when none is configured.
pub const DEFAULT_REDIS_URL: &'static str = "redis://localhost:6379";

/// Fallback token-signing secret when none is configured.
pub const DEFAULT_JWT_SECRET: &'static str = "your-secret-key";

/// Fallback listening port when none is configured or the setting is unreadable.
pub const DEFAULT_PORT: u16 = 3000;

/// Failure kinds reported by the library's operations.
#[derive(Debug, Clone, PartialEq, Eq)]
pub enum ServiceError {
    Database(String),
    NotFound(String),
    InvalidInput(String),
    AuthenticationFailed,
    AuthorizationFailed,
    Internal(String),
}

impl ServiceError {
    /// The human-readable text of the error.
    pub open spec fn message_spec(&self) -> Seq<char> {
        match self {
            ServiceError::Database(m) => "Database error: "@ + m@,
            ServiceError::NotFound(m) => "Not found: "@ + m@,
            ServiceError::InvalidInput(m) => "Invalid input: "@ + m@,
            ServiceError::AuthenticationFailed => "Authentication failed"@,
            ServiceError::AuthorizationFailed => "Authorization failed"@,
            ServiceError::Internal(m) => "Internal server error: "@ + m@,
        }
    }

    /// The human-readable text of the error.
    pub fn message(&self) -> (r: String)
        ensures
            r@ == self.message_spec(),
    {
        let (prefix, detail): (&str, Option<&String>) = match self {
            ServiceError::Database(m) => ("Database error: ", Some(m)),
            ServiceError::NotFound(m) => ("Not found: ", Some(m)),
            ServiceError::InvalidInput(m) => ("Invalid input: ", Some(m)),
            ServiceError::AuthenticationFailed => ("Authentication failed", None),
            ServiceError::AuthorizationFailed => ("Authorization failed", None),
            ServiceError::Internal(m) => ("Internal server error: ", Some(m)),
        };
        let mut s = String::from_str(prefix);
        if let Some(m) = detail {
            s.append(m.as_str());
        }
        s
    }
}

/// Settings the service runs with.
#[derive(Debug, Clone)]
pub struct AppConfig {
    pub database_url: String,
    pub redis_url: String,
    pub jwt_secret: String,
    pub port: u16,
}

impl AppConfig {
    /// Builds a configuration from optional settings, each absent one taking its fallback.
    pub fn from_settings(
        database_url: Option<String>,
        redis_url: Option<String>,
        jwt_secret: Option<String>,
        port: Option<u16>,
    ) -> (r: AppConfig)
        ensures
            r.database_url@ == (match database_url {
                Some(u) => u@,
                None => DEFAULT_DATABASE_URL@,
            }),
            r.redis_url@ == (match redis_url {
                Some(u) => u@,
                None => DEFAULT_REDIS_URL@,
            }),
            r.jwt_secret@ == (match jwt_secret {
                Some(u) => u@,
                None => DEFAULT_JWT_SECRET@,
            }),
            r.port == (match port {
                Some(p) => p,
                None => DEFAULT_PORT,
            }),
    {
        AppConfig {
            database_url: match database_url {
                Some(u) => u,
                None => String::from_str(DEFAULT_DATABASE_URL),
            },
            redis_url: match redis_url {
                Some(u) => u,
                None => String::from_str(DEFAULT_REDIS_URL),
            },
            jwt_secret: match jwt_secret {
                Some(u) => u,
                None => String::from_str(DEFAULT_JWT_SECRET),
            },
            port: match port {
                Some(p) => p,
                None => DEFAULT_PORT,
            },
        }
    }

    /// Builds a configuration from raw setting texts (as read from the environment);
    /// a port text that is absent or not a valid port number gives the fallback port.
    pub fn from_setting_texts(
        database_url: Option<String>,
        redis_url: Option<String>,
        jwt_secret: Option<String>,
        port_text: Option<String>,
    ) -> (r: AppConfig)
        ensures
            r.database_url@ == (match database_url {
                Some(u) => u@,
                None => DEFAULT_DATABASE_URL@,
            }),
            r.redis_url@ == (match redis_url {
                Some(u) => u@,
                None => DEFAULT_REDIS_URL@,
            }),
            r.jwt_secret@ == (match jwt_secret {
                Some(u) => u@,
                None => DEFAULT_JWT_SECRET@,
            }),
            r.port == (match port_text {
                Some(t) => match port_number_of(t@) {
                    Some(p) => p,
                    None => DEFAULT_PORT,
                },
                None => DEFAULT_PORT,
            }),
    {
        let port = match port_text {
            Some(t) => port_number(t.as_str()),
            None => None,
        };
        AppConfig::from_settings(database_url, redis_url, jwt_secret, port)
    }
}

impl Default for AppConfig {
    /// The configuration with every setting at its fallback.
    fn default() -> (r: AppConfig)
        ensures
            r.database_url@ == DEFAULT_DATABASE_URL@,
            r.redis_url@ == DEFAULT_REDIS_URL@,
            r.jwt_secret@ == DEFAULT_JWT_SECRET@,
            r.port == DEFAULT_PORT,
    {
        AppConfig::from_settings(None, None, None, None)
    }
}

/// State shared by every request handler.
#[derive(Debug)]
pub struct AppState {
    pub config: AppConfig,
}

impl AppState {
    /// Shared state over the given configuration.
    pub fn new(config: AppConfig) -> (r: AppState)
        ensures
            r.config == config,
    {
        AppState { config }
    }
}

/// Service handle for user records.
pub struct UserService {
    pub state: Arc<AppState>,
}

impl UserService {
    pub fn new(state: Arc<AppState>) -> (r: UserService)
        ensures
            r.state == state,
    {
        UserService { state }
    }
}

/// Service handle for account records.
pub struct AccountService {
    pub state: Arc<AppState>,
}

impl AccountService {
    pub fn new(state: Arc<AppState>) -> (r: AccountService)
        ensures
            r.state == state,
    {
        AccountService { state }
    }
}

/// Service handle for transaction records.
pub struct TransactionService {
    pub state: Arc<AppState>,
}

impl TransactionService {
    pub fn new(state: Arc<AppState>) -> (r: TransactionService)
        ensures
            r.state == state,
    {
        TransactionService { state }
    }
}

/// Service handle for derived statistics.
pub struct StatisticsService {
    pub state: Arc<AppState>,
}

impl StatisticsService {
    pub fn new(state: Arc<AppState>) -> (r: StatisticsService)
        ensures
            r.state == state,
    {
        StatisticsService { state }
    }
}

} // verus!
