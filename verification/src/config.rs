//! Configuration of the orchestrator, built from the values of its
//! environment variables.

use vstd::prelude::*;
use crate::text::{
    comma_pieces, has_prefix, opt_view, parse_unsigned, parsed_unsigned, split_commas,
    starts_with, string_views, trim, trimmed,
};

verus! {

/// The port served where none is configured.
pub const DEFAULT_PORT: u16 = 3000;

/// Configuration of the orchestrator.
#[derive(Debug, Clone)]
pub struct Config {
    /// URL of the storage and auth service.
    pub supabase_url: String,
    /// Key of the storage and auth service.
    pub supabase_key: String,
    /// Stripe secret key for billing.
    pub stripe_secret_key: Option<String>,
    /// Stripe webhook secret.
    pub stripe_webhook_secret: Option<String>,
    /// Stripe publishable key.
    pub stripe_publishable_key: Option<String>,
    /// Server port.
    pub port: u16,
    /// Base URL of the API, used in responses.
    pub base_url: String,
    /// Secret that workers authenticate with, if any.
    pub worker_secret_key: Option<String>,
}

/// Why a configuration could not be built.
#[derive(Debug, Clone, Copy, PartialEq, Eq, Structural)]
pub enum ConfigError {
    /// `SUPABASE_URL` is not set.
    MissingSupabaseUrl,
    /// `SUPABASE_KEY` is not set.
    MissingSupabaseKey,
    /// `PORT` is not a port number.
    InvalidPort,
    /// `ORCHESTRATOR_URL` is not set.
    MissingOrchestratorUrl,
    /// `WORKER_CAPACITY` is not a number.
    InvalidCapacity,
    /// `JOB_TIMEOUT_MINUTES` is not a number.
    InvalidTimeout,
    /// `VM_POOL_SIZE` is not a number.
    InvalidPoolSize,
}

impl ConfigError {
    /// The message shown for the error.
    pub open spec fn spec_message(self) -> Seq<char> {
        match self {
            ConfigError::MissingSupabaseUrl => "SUPABASE_URL environment variable required"@,
            ConfigError::MissingSupabaseKey => "SUPABASE_KEY environment variable required"@,
            ConfigError::InvalidPort => "Invalid PORT value"@,
            ConfigError::MissingOrchestratorUrl => "ORCHESTRATOR_URL environment variable required"@,
            ConfigError::InvalidCapacity => "Invalid WORKER_CAPACITY value"@,
            ConfigError::InvalidTimeout => "Invalid JOB_TIMEOUT_MINUTES value"@,
            ConfigError::InvalidPoolSize => "Invalid VM_POOL_SIZE value"@,
        }
    }

    /// The message shown for the error.
    pub fn message(&self) -> (m: &'static str)
        ensures
            m@ == self.spec_message(),
    {
        match self {
            ConfigError::MissingSupabaseUrl => "SUPABASE_URL environment variable required",
            ConfigError::MissingSupabaseKey => "SUPABASE_KEY environment variable required",
            ConfigError::InvalidPort => "Invalid PORT value",
            ConfigError::MissingOrchestratorUrl => "ORCHESTRATOR_URL environment variable required",
            ConfigError::InvalidCapacity => "Invalid WORKER_CAPACITY value",
            ConfigError::InvalidTimeout => "Invalid JOB_TIMEOUT_MINUTES value",
            ConfigError::InvalidPoolSize => "Invalid VM_POOL_SIZE value",
        }
    }
}

/// The value of a variable, or the default where it is not set.
pub fn or_default(value: Option<String>, default: &str) -> (r: String)
    ensures
        r@ == match value {
            Some(v) => v@,
            None => default@,
        },
{
    match value {
        Some(v) => v,
        None => String::from_str(default),
    }
}

/// The number that a variable holds, or the default where it is not set;
/// `None` where it is set to anything but a number up to `max`.
pub fn number_or(value: &Option<String>, default: u64, max: u64) -> (r: Option<u64>)
    requires
        default <= max,
    ensures
        r == match *value {
            Some(v) => match parsed_unsigned(v@, max as nat) {
                Some(n) => Some(n as u64),
                None => None,
            },
            None => Some(default),
        },
        r is Some ==> r->0 <= max,
{
    match value {
        Some(v) => parse_unsigned(v.as_str(), max),
        None => Some(default),
    }
}

impl Config {
    /// Builds the configuration from the values of `SUPABASE_URL`,
    /// `SUPABASE_KEY`, `STRIPE_SECRET_KEY`, `STRIPE_WEBHOOK_SECRET`,
    /// `STRIPE_PUBLISHABLE_KEY`, `PORT`, `BASE_URL` and `WORKER_SECRET_KEY`,
    /// each `None` where the variable is not set. The first two are
    /// required; the port defaults to 3000 and the base URL to
    /// `http://localhost:3000`.
    pub fn from_vars(
        supabase_url: Option<String>,
        supabase_key: Option<String>,
        stripe_secret_key: Option<String>,
        stripe_webhook_secret: Option<String>,
        stripe_publishable_key: Option<String>,
        port: Option<String>,
        base_url: Option<String>,
        worker_secret_key: Option<String>,
    ) -> (r: Result<Config, ConfigError>)
        ensures
            match r {
                Ok(c) => {
                    &&& supabase_url is Some && c.supabase_url@ == supabase_url->0@
                    &&& supabase_key is Some && c.supabase_key@ == supabase_key->0@
                    &&& opt_view(c.stripe_secret_key) == opt_view(stripe_secret_key)
                    &&& opt_view(c.stripe_webhook_secret) == opt_view(stripe_webhook_secret)
                    &&& opt_view(c.stripe_publishable_key) == opt_view(stripe_publishable_key)
                    &&& match port {
                        Some(p) => parsed_unsigned(p@, 65535) == Some(c.port as nat),
                        None => c.port == 3000,
                    }
                    &&& c.base_url@ == match base_url {
                        Some(b) => b@,
                        None => "http://localhost:3000"@,
                    }
                    &&& opt_view(c.worker_secret_key) == opt_view(worker_secret_key)
                },
                Err(ConfigError::MissingSupabaseUrl) => supabase_url is None,
                Err(ConfigError::MissingSupabaseKey) => supabase_url is Some && supabase_key
                    is None,
                Err(ConfigError::InvalidPort) => supabase_url is Some && supabase_key is Some
                    && port is Some && parsed_unsigned(port->0@, 65535) is None,
                Err(_) => false,
            },
    {
        let supabase_url = match supabase_url {
            Some(u) => u,
            None => {
                return Err(ConfigError::MissingSupabaseUrl);
            },
        };
        let supabase_key = match supabase_key {
            Some(k) => k,
            None => {
                return Err(ConfigError::MissingSupabaseKey);
            },
        };
        let port: u16 = match number_or(&port, 3000, 65535) {
            Some(p) => p as u16,
            None => {
                return Err(ConfigError::InvalidPort);
            },
        };
        Ok(
            Config {
                supabase_url,
                supabase_key,
                stripe_secret_key,
                stripe_webhook_secret,
                stripe_publishable_key,
                port,
                base_url: or_default(base_url, "http://localhost:3000"),
                worker_secret_key,
            },
        )
    }
}

/// Which store backs the orchestrator.
#[derive(Debug, Clone)]
pub enum DatabaseBackend {
    /// The managed cloud service.
    Supabase { url: String, key: String },
    /// A local SQLite file.
    Sqlite { path: String },
    /// A PostgreSQL server.
    Postgres { url: String },
}

/// The mathematical value of a [`DatabaseBackend`].
pub ghost enum DatabaseBackendView {
    Supabase { url: Seq<char>, key: Seq<char> },
    Sqlite { path: Seq<char> },
    Postgres { url: Seq<char> },
}

impl View for DatabaseBackend {
    type V = DatabaseBackendView;

    open spec fn view(&self) -> DatabaseBackendView {
        match self {
            DatabaseBackend::Supabase { url, key } => DatabaseBackendView::Supabase {
                url: url@,
                key: key@,
            },
            DatabaseBackend::Sqlite { path } => DatabaseBackendView::Sqlite { path: path@ },
            DatabaseBackend::Postgres { url } => DatabaseBackendView::Postgres { url: url@ },
        }
    }
}

impl DatabaseBackend {
    /// The backend that the environment selects.
    pub open spec fn selected(
        supabase_url: Option<Seq<char>>,
        supabase_key: Option<Seq<char>>,
        database_url: Option<Seq<char>>,
        sqlite_path: Option<Seq<char>>,
    ) -> DatabaseBackendView {
        if supabase_url is Some && supabase_key is Some {
            DatabaseBackendView::Supabase { url: supabase_url->0, key: supabase_key->0 }
        } else if database_url is Some && has_prefix(database_url->0, "postgres"@) {
            DatabaseBackendView::Postgres { url: database_url->0 }
        } else {
            DatabaseBackendView::Sqlite {
                path: match sqlite_path {
                    Some(p) => p,
                    None => "data/jules-mac-runner.db"@,
                },
            }
        }
    }

    /// Selects the backend from the values of `SUPABASE_URL`,
    /// `SUPABASE_KEY`, `DATABASE_URL` and `SQLITE_PATH`: the cloud service
    /// where both of its variables are set; else PostgreSQL where the
    /// database URL begins with `postgres`; else SQLite, at the given path
    /// or at `data/jules-mac-runner.db`.
    pub fn from_vars(
        supabase_url: Option<String>,
        supabase_key: Option<String>,
        database_url: Option<String>,
        sqlite_path: Option<String>,
    ) -> (r: DatabaseBackend)
        ensures
            r@ == Self::selected(
                opt_view(supabase_url),
                opt_view(supabase_key),
                opt_view(database_url),
                opt_view(sqlite_path),
            ),
    {
        match (supabase_url, supabase_key) {
            (Some(url), Some(key)) => {
                return DatabaseBackend::Supabase { url, key };
            },
            _ => {},
        }
        match database_url {
            Some(url) => {
                if starts_with(url.as_str(), "postgres") {
                    return DatabaseBackend::Postgres { url };
                }
            },
            None => {},
        }
        DatabaseBackend::Sqlite { path: or_default(sqlite_path, "data/jules-mac-runner.db") }
    }
}

/// The origins that a value of `CORS_ORIGINS` names: its pieces between
/// commas, each without the white space around it.
pub open spec fn cors_origins_text(value: Seq<char>) -> Seq<Seq<char>> {
    Seq::new(comma_pieces(value).len(), |i: int| trimmed(comma_pieces(value)[i]))
}

/// The origins that a value of `CORS_ORIGINS` names, in order. Which of
/// them are well-formed origins is for the HTTP layer to say.
pub fn cors_origins(value: &str) -> (origins: Vec<String>)
    ensures
        string_views(origins@) == cors_origins_text(value@),
{
    let pieces = split_commas(value);
    let mut origins: Vec<String> = Vec::new();
    let mut i: usize = 0;
    while i < pieces.len()
        invariant
            i <= pieces.len(),
            string_views(pieces@) == comma_pieces(value@),
            origins@.len() == i,
            forall|k: int| 0 <= k < i ==> (#[trigger] origins@[k])@ == trimmed(comma_pieces(value@)[k]),
        decreases pieces.len() - i,
    {
        assert(string_views(pieces@)[i as int] == pieces@[i as int]@);
        origins.push(trim(pieces[i].as_str()));
        i += 1;
    }
    assert(string_views(origins@) =~= cors_origins_text(value@));
    origins
}

} // verus!
