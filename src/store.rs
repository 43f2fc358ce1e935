use vstd::prelude::*;
use vstd::string::*;

verus! {

/// Configuration key of the directory that holds the request stores.
pub const SATP_DB_PATH: &'static str = "satp_db_path";

/// Number of re-opens of a busy store when the configuration names none.
pub const DEFAULT_DB_OPEN_MAX_RETRIES: u32 = 500;

/// Pause between two opens of a busy store, in milliseconds, when the
/// configuration names none.
pub const DEFAULT_DB_OPEN_RETRY_BACKOFF_MSEC: u32 = 10;

/// The four key spaces of the request store: raw requests and their states,
/// each for the requests this gateway sent (local) and received (remote).
#[derive(PartialEq, Eq, Structural, Clone, Copy, Debug)]
pub enum StoreKind {
    LocalRequests,
    RemoteRequests,
    LocalRequestStates,
    RemoteRequestStates,
}

impl StoreKind {
    pub open spec fn spec_suffix(self) -> Seq<char> {
        match self {
            StoreKind::LocalRequests => "/requests"@,
            StoreKind::RemoteRequests => "/remote_requests"@,
            StoreKind::LocalRequestStates => "/requests_states"@,
            StoreKind::RemoteRequestStates => "/remote_requests_states"@,
        }
    }

    /// Which side of the exchange the key space belongs to, as error messages name it.
    pub open spec fn spec_side(self) -> Seq<char> {
        match self {
            StoreKind::LocalRequests | StoreKind::LocalRequestStates => "local"@,
            StoreKind::RemoteRequests | StoreKind::RemoteRequestStates => "remote"@,
        }
    }

    pub fn suffix(&self) -> (r: &'static str)
        ensures
            r@ == self.spec_suffix(),
    {
        match self {
            StoreKind::LocalRequests => "/requests",
            StoreKind::RemoteRequests => "/remote_requests",
            StoreKind::LocalRequestStates => "/requests_states",
            StoreKind::RemoteRequestStates => "/remote_requests_states",
        }
    }

    pub fn side(&self) -> (r: &'static str)
        ensures
            r@ == self.spec_side(),
    {
        match self {
            StoreKind::LocalRequests | StoreKind::LocalRequestStates => "local",
            StoreKind::RemoteRequests | StoreKind::RemoteRequestStates => "remote",
        }
    }
}

/// A failure of the persistence engine, with its detail.
#[derive(Clone, Debug)]
pub enum StoreError {
    Open(String),
    Insert(String),
    Get(String),
    Encode(String),
}

impl StoreError {
    pub open spec fn spec_describe(self) -> Seq<char> {
        match self {
            StoreError::Open(d) => "could not open store: "@ + d@,
            StoreError::Insert(d) => "could not insert: "@ + d@,
            StoreError::Get(d) => "could not read: "@ + d@,
            StoreError::Encode(d) => "could not encode: "@ + d@,
        }
    }

    pub fn describe(&self) -> (r: String)
        ensures
            r@ == self.spec_describe(),
    {
        match self {
            StoreError::Open(d) => String::from_str("could not open store: ").concat(d.as_str()),
            StoreError::Insert(d) => String::from_str("could not insert: ").concat(d.as_str()),
            StoreError::Get(d) => String::from_str("could not read: ").concat(d.as_str()),
            StoreError::Encode(d) => String::from_str("could not encode: ").concat(d.as_str()),
        }
    }
}

/// A setting that the gateway cannot run without is absent.
#[derive(Clone, Debug)]
pub enum ConfigError {
    MissingKey(String),
}

/// Where one key space lives and how hard to try opening it.
#[derive(Clone, Debug)]
pub struct Database {
    pub db_path: String,
    pub db_open_max_retries: u32,
    pub db_open_retry_backoff_msec: u32,
}

/// What to do after an open of the store failed.
#[derive(PartialEq, Eq, Structural, Clone, Copy, Debug)]
pub enum OpenDecision {
    Retry { wait_msec: u32 },
    GiveUp,
}

impl Database {
    /// After `failed_attempts` failed opens in a row: try again after the fixed
    /// backoff while the retry budget lasts, then give up. The first open and
    /// at most `db_open_max_retries` re-opens are made.
    pub fn after_failed_open(&self, failed_attempts: u32) -> (r: OpenDecision)
        ensures
            failed_attempts <= self.db_open_max_retries ==> r == (OpenDecision::Retry {
                wait_msec: self.db_open_retry_backoff_msec,
            }),
            failed_attempts > self.db_open_max_retries ==> r == OpenDecision::GiveUp,
    {
        if failed_attempts <= self.db_open_max_retries {
            OpenDecision::Retry { wait_msec: self.db_open_retry_backoff_msec }
        } else {
            OpenDecision::GiveUp
        }
    }
}

/// `db` describes key space `kind` under the directory `root`, with the
/// configured retry settings, or the defaults where none is configured.
pub open spec fn is_database_for(
    root: Seq<char>,
    max_retries: Option<i64>,
    backoff_msec: Option<i64>,
    kind: StoreKind,
    db: Database,
) -> bool {
    &&& db.db_path@ == root + kind.spec_suffix()
    &&& db.db_open_max_retries == match max_retries {
        Some(v) => v as u32,
        None => DEFAULT_DB_OPEN_MAX_RETRIES,
    }
    &&& db.db_open_retry_backoff_msec == match backoff_msec {
        Some(v) => v as u32,
        None => DEFAULT_DB_OPEN_RETRY_BACKOFF_MSEC,
    }
}

/// The settings of key space `kind` from the configured values: the store
/// directory is required, the retry settings fall back to their defaults.
pub fn database_for(
    root: Option<String>,
    max_retries: Option<i64>,
    backoff_msec: Option<i64>,
    kind: StoreKind,
) -> (r: Result<Database, ConfigError>)
    ensures
        root is None <==> r is Err,
        r matches Err(ConfigError::MissingKey(k)) ==> k@ == SATP_DB_PATH@,
        r matches Ok(db) ==> is_database_for(root->Some_0@, max_retries, backoff_msec, kind, db),
{
    match root {
        None => Err(ConfigError::MissingKey(String::from_str(SATP_DB_PATH))),
        Some(root) => {
            let max: u32 = match max_retries {
                Some(v) => v as u32,
                None => DEFAULT_DB_OPEN_MAX_RETRIES,
            };
            let backoff: u32 = match backoff_msec {
                Some(v) => v as u32,
                None => DEFAULT_DB_OPEN_RETRY_BACKOFF_MSEC,
            };
            Ok(
                Database {
                    db_path: root.concat(kind.suffix()),
                    db_open_max_retries: max,
                    db_open_retry_backoff_msec: backoff,
                },
            )
        },
    }
}

#[verifier::external_type_specification]
#[verifier::external_body]
pub struct ExConfig(config::Config);

/// The string that configuration `conf` holds under `key`, if any. A lookup
/// reads the configuration's settled values only, so it depends on the
/// configuration and the key alone.
pub uninterp spec fn config_string_of(conf: config::Config, key: Seq<char>) -> Option<Seq<char>>;

/// The integer that configuration `conf` holds under `key`, if any.
pub uninterp spec fn config_int_of(conf: config::Config, key: Seq<char>) -> Option<i64>;

/// A key without subscripts: a dotted path of names. Subscripted keys
/// (`a[-3]`) can make the configuration's path lookup overflow.
pub open spec fn is_plain_key(key: Seq<char>) -> bool {
    forall|i: int| 0 <= i < key.len() ==> key[i] != '['
}

/// Relies on config::Config::get_string: the string under `key`, if the
/// configuration holds one there.
#[verifier::external_body]
fn config_string(conf: &config::Config, key: &str) -> (r: Option<String>)
    requires
        is_plain_key(key@),
    ensures
        r is Some <==> config_string_of(*conf, key@) is Some,
        r matches Some(s) ==> config_string_of(*conf, key@) == Some(s@),
{
    conf.get_string(key).ok()
}

/// Relies on config::Config::get_int: the integer under `key`, if the
/// configuration holds one there.
#[verifier::external_body]
fn config_int(conf: &config::Config, key: &str) -> (r: Option<i64>)
    requires
        is_plain_key(key@),
    ensures
        r == config_int_of(*conf, key@),
{
    conf.get_int(key).ok()
}

/// Configuration key of the number of re-opens of a busy store.
pub const DB_OPEN_MAX_RETRIES_KEY: &'static str = "db_open_max_retries";

/// Configuration key of the pause between two opens of a busy store.
pub const DB_OPEN_RETRY_BACKOFF_MSEC_KEY: &'static str = "db_open_retry_backoff_msec";

/// `r` is what configuration `conf` gives for key space `kind`: an error
/// exactly when it names no store directory, else the settings under that
/// directory with the configured (or default) retry policy.
pub open spec fn database_of_config(conf: config::Config, kind: StoreKind, r: Result<Database, ConfigError>) -> bool {
    &&& (r is Err <==> config_string_of(conf, SATP_DB_PATH@) is None)
    &&& (r matches Err(ConfigError::MissingKey(k)) ==> k@ == SATP_DB_PATH@)
    &&& (r matches Ok(db) ==> is_database_for(
        config_string_of(conf, SATP_DB_PATH@)->Some_0,
        config_int_of(conf, DB_OPEN_MAX_RETRIES_KEY@),
        config_int_of(conf, DB_OPEN_RETRY_BACKOFF_MSEC_KEY@),
        kind,
        db,
    ))
}

/// Settings of key space `kind`, read from the gateway configuration.
pub fn database_from_config(conf: &config::Config, kind: StoreKind) -> (r: Result<Database, ConfigError>)
    ensures
        database_of_config(*conf, kind, r),
{
    proof {
        reveal_strlit("satp_db_path");
        reveal_strlit("db_open_max_retries");
        reveal_strlit("db_open_retry_backoff_msec");
    }
    let root = config_string(conf, SATP_DB_PATH);
    let max_retries = config_int(conf, DB_OPEN_MAX_RETRIES_KEY);
    let backoff = config_int(conf, DB_OPEN_RETRY_BACKOFF_MSEC_KEY);
    database_for(root, max_retries, backoff, kind)
}

pub fn get_satp_requests_local_db(conf: &config::Config) -> (r: Result<Database, ConfigError>)
    ensures
        database_of_config(*conf, StoreKind::LocalRequests, r),
{
    database_from_config(conf, StoreKind::LocalRequests)
}

pub fn get_satp_requests_remote_db(conf: &config::Config) -> (r: Result<Database, ConfigError>)
    ensures
        database_of_config(*conf, StoreKind::RemoteRequests, r),
{
    database_from_config(conf, StoreKind::RemoteRequests)
}

pub fn get_satp_requests_states_local_db(conf: &config::Config) -> (r: Result<Database, ConfigError>)
    ensures
        database_of_config(*conf, StoreKind::LocalRequestStates, r),
{
    database_from_config(conf, StoreKind::LocalRequestStates)
}

pub fn get_satp_requests_states_remote_db(conf: &config::Config) -> (r: Result<Database, ConfigError>)
    ensures
        database_of_config(*conf, StoreKind::RemoteRequestStates, r),
{
    database_from_config(conf, StoreKind::RemoteRequestStates)
}

} // verus!
