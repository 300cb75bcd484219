//! Service configuration: the database pool settings, the values read from the
//! environment, and the slot that holds the configuration once it is set.
use vstd::prelude::*;
use vstd::string::StringExecFns;
use crate::decimal::{format_u64, nat_digits, parse_u64, parsed_u64};

verus! {

/// Seconds a token lives when `JWT_TTL_SECONDS` is absent or unreadable: one week.
pub const DEFAULT_JWT_TTL_SECS: u64 = 604800;

#[derive(Clone, Debug)]
pub struct DbConfig {
    pub url: String,
    pub pool_size: u32,
    pub min_idle: u32,
    pub connection_timeout: u64,
    pub helper_threads: usize,
    pub statement_timeout: u64,
    pub tcp_timeout: u64,
    pub enforce_tls: bool,
}

impl DbConfig {
    /// The pool settings that the service always runs with.
    pub open spec fn has_standard_pool(&self) -> bool {
        &&& self.pool_size == 15
        &&& self.min_idle == 5
        &&& self.connection_timeout == 30000
        &&& self.helper_threads == 4
        &&& self.statement_timeout == 5000
        &&& self.tcp_timeout == 30000
        &&& !self.enforce_tls
    }

    /// The standard pool settings for the database at `url`.
    pub fn for_url(url: String) -> (r: DbConfig)
        ensures
            r.url@ == url@,
            r.has_standard_pool(),
    {
        DbConfig {
            url,
            pool_size: 15,
            min_idle: 5,
            connection_timeout: 30000,
            helper_threads: 4,
            statement_timeout: 5000,
            tcp_timeout: 30000,
            enforce_tls: false,
        }
    }
}

impl Default for DbConfig {
    fn default() -> (r: DbConfig)
        ensures
            r.url@ == Seq::<char>::empty(),
            r.has_standard_pool(),
    {
        DbConfig::for_url(String::new())
    }
}

#[derive(Clone, Debug)]
pub struct AppConfig {
    pub bind_addr: String,
    pub jwt_secret: String,
    /// How long an access token lives, in seconds.
    pub jwt_ttl_secs: u64,
    pub database: DbConfig,
}

/// Why the configuration could not be built from the environment.
#[derive(Clone, Copy, Debug, PartialEq, Eq, Structural)]
pub enum ConfigError {
    MissingDatabaseUrl,
    MissingJwtSecret,
}

impl ConfigError {
    pub open spec fn message_spec(self) -> Seq<char> {
        match self {
            ConfigError::MissingDatabaseUrl => "DATABASE_URL is required"@,
            ConfigError::MissingJwtSecret => "JWT_SECRET is required"@,
        }
    }

    pub fn message(&self) -> (r: String)
        ensures
            r@ == self.message_spec(),
    {
        match self {
            ConfigError::MissingDatabaseUrl => "DATABASE_URL is required".to_string(),
            ConfigError::MissingJwtSecret => "JWT_SECRET is required".to_string(),
        }
    }
}

/// The token lifetime that a `JWT_TTL_SECONDS` value gives.
pub open spec fn ttl_from(raw: Option<Seq<char>>) -> u64 {
    match raw {
        Some(s) => match parsed_u64(s) {
            Some(n) => n,
            None => DEFAULT_JWT_TTL_SECS,
        },
        None => DEFAULT_JWT_TTL_SECS,
    }
}

pub open spec fn opt_chars(o: Option<String>) -> Option<Seq<char>> {
    match o {
        Some(s) => Some(s@),
        None => None,
    }
}

impl AppConfig {
    /// Builds the configuration from the values of `BIND_ADDR`, `DATABASE_URL`,
    /// `JWT_SECRET` and `JWT_TTL_SECONDS` (`None` where a variable is unset).
    pub fn from_values(
        bind_addr: Option<String>,
        database_url: Option<String>,
        jwt_secret: Option<String>,
        jwt_ttl_seconds: Option<String>,
    ) -> (r: Result<AppConfig, ConfigError>)
        ensures
            database_url is None ==> r == Err::<AppConfig, ConfigError>(ConfigError::MissingDatabaseUrl),
            database_url is Some && jwt_secret is None ==> r == Err::<AppConfig, ConfigError>(
                ConfigError::MissingJwtSecret,
            ),
            database_url is Some && jwt_secret is Some ==> r is Ok,
            r matches Ok(c) ==> {
                &&& c.bind_addr@ == (match bind_addr {
                    Some(b) => b@,
                    None => "0.0.0.0:8119"@,
                })
                &&& c.database.url@ == database_url->0@
                &&& c.database.has_standard_pool()
                &&& c.jwt_secret@ == jwt_secret->0@
                &&& c.jwt_ttl_secs == ttl_from(opt_chars(jwt_ttl_seconds))
            },
    {
        let bind_addr = match bind_addr {
            Some(b) => b,
            None => "0.0.0.0:8119".to_string(),
        };
        let database_url = match database_url {
            Some(u) => u,
            None => return Err(ConfigError::MissingDatabaseUrl),
        };
        let jwt_secret = match jwt_secret {
            Some(s) => s,
            None => return Err(ConfigError::MissingJwtSecret),
        };
        let jwt_ttl_secs = match &jwt_ttl_seconds {
            Some(v) => match parse_u64(v.as_str()) {
                Some(n) => n,
                None => DEFAULT_JWT_TTL_SECS,
            },
            None => DEFAULT_JWT_TTL_SECS,
        };
        Ok(AppConfig { bind_addr, jwt_secret, jwt_ttl_secs, database: DbConfig::for_url(database_url) })
    }

    /// The configuration held by `slot`, which must have been set.
    pub fn get(slot: &ConfigSlot) -> (r: &AppConfig)
        requires
            slot@ is Some,
        ensures
            *r == slot@->0,
    {
        slot.value.as_ref().unwrap()
    }
}

/// Holds the configuration; it can be set once and never replaced.
pub struct ConfigSlot {
    value: Option<AppConfig>,
}

impl View for ConfigSlot {
    type V = Option<AppConfig>;

    closed spec fn view(&self) -> Option<AppConfig> {
        self.value
    }
}

impl ConfigSlot {
    pub fn new() -> (r: ConfigSlot)
        ensures
            r@ is None,
    {
        ConfigSlot { value: None }
    }

    pub fn is_set(&self) -> (r: bool)
        ensures
            r == self@ is Some,
    {
        self.value.is_some()
    }

    /// Stores `config` if nothing is stored yet; otherwise hands it back and
    /// keeps what was stored first.
    pub fn set(&mut self, config: AppConfig) -> (r: Result<(), AppConfig>)
        ensures
            old(self)@ is None ==> r is Ok && final(self)@ == Some(config),
            old(self)@ is Some ==> r == Err::<(), AppConfig>(config) && final(self)@ == old(self)@,
    {
        if self.value.is_some() {
            Err(config)
        } else {
            self.value = Some(config);
            Ok(())
        }
    }
}

/// The statement that every pooled database connection runs when it is
/// handed out: the statement timeout, in milliseconds.
pub fn statement_timeout_sql(statement_timeout: u64) -> (r: String)
    ensures
        r@ == "SET statement_timeout = "@ + nat_digits(statement_timeout as nat),
{
    let mut s = "SET statement_timeout = ".to_string();
    s.append(format_u64(statement_timeout).as_str());
    s
}

} // verus!
