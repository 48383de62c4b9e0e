//! The persistence configuration and the selection of exactly one sink.
//!
//! Opening a sink happens in two steps around the environment: the selected
//! backend's configuration section is chosen first, the host then reads the
//! environment variables that section names, and the open request is
//! completed from their values (required TLS trust anchors included).

use vstd::prelude::*;

use crate::contracts::PersistenceError;
use crate::sqlserver_plan::{check_identifier, sql_identifier};

verus! {

/// The database family selected by `runtime.openot.persistence.backend`.
#[derive(Debug, Clone, Copy, PartialEq, Eq, Structural)]
pub enum OpenOtPersistenceBackend {
    Sqlite,
    PostgreSql,
    TimescaleDb,
    MySql,
    SqlServer,
    InfluxDb3,
}

pub open spec fn backend_name(backend: OpenOtPersistenceBackend) -> Seq<char> {
    match backend {
        OpenOtPersistenceBackend::Sqlite => "sqlite"@,
        OpenOtPersistenceBackend::PostgreSql => "postgresql"@,
        OpenOtPersistenceBackend::TimescaleDb => "timescaledb"@,
        OpenOtPersistenceBackend::MySql => "mysql"@,
        OpenOtPersistenceBackend::SqlServer => "sqlserver"@,
        OpenOtPersistenceBackend::InfluxDb3 => "influxdb3"@,
    }
}

impl OpenOtPersistenceBackend {
    /// The configuration name of the backend.
    pub fn as_str(self) -> (r: &'static str)
        ensures
            r@ == backend_name(self),
    {
        match self {
            OpenOtPersistenceBackend::Sqlite => "sqlite",
            OpenOtPersistenceBackend::PostgreSql => "postgresql",
            OpenOtPersistenceBackend::TimescaleDb => "timescaledb",
            OpenOtPersistenceBackend::MySql => "mysql",
            OpenOtPersistenceBackend::SqlServer => "sqlserver",
            OpenOtPersistenceBackend::InfluxDb3 => "influxdb3",
        }
    }
}

/// `runtime.openot.persistence.sqlite`.
#[derive(Debug, Clone, PartialEq, Eq)]
pub struct SqliteSection {
    pub path: String,
}

/// A network relational database section (PostgreSQL, TimescaleDB, MySQL,
/// SQL Server): the environment variable holding the connection URL, the
/// schema (the database for MySQL), and the CA certificate path.
#[derive(Debug, Clone, PartialEq, Eq)]
pub struct RelationalSection {
    pub connection_url_env: String,
    pub schema: String,
    pub ca_cert_path: Option<String>,
}

/// `runtime.openot.persistence.influxdb3`.
#[derive(Debug, Clone, PartialEq, Eq)]
pub struct InfluxDb3Section {
    pub host_env: String,
    pub token_env: String,
    pub database: String,
    pub spool_path: String,
    pub ca_cert_path: Option<String>,
    pub max_bytes: u64,
}

/// `runtime.openot.persistence`.
#[derive(Debug, Clone, PartialEq, Eq)]
pub struct OpenOtPersistenceConfig {
    pub enabled: bool,
    pub backend: Option<OpenOtPersistenceBackend>,
    pub sqlite: Option<SqliteSection>,
    pub postgresql: Option<RelationalSection>,
    pub timescaledb: Option<RelationalSection>,
    pub mysql: Option<RelationalSection>,
    pub sqlserver: Option<RelationalSection>,
    pub influxdb3: Option<InfluxDb3Section>,
    pub batch_size: usize,
    pub queue_capacity: usize,
    pub flush_interval_ms: u64,
    pub retry_initial_ms: u64,
    pub retry_max_ms: u64,
    pub retry_multiplier: u32,
    pub retry_max_attempts: u32,
    pub shutdown_timeout_ms: u64,
}

/// The configuration section of the selected backend.
#[derive(Debug, Clone, PartialEq, Eq)]
pub enum SelectedSection {
    Sqlite(SqliteSection),
    Relational(OpenOtPersistenceBackend, RelationalSection),
    InfluxDb3(InfluxDb3Section),
}

pub open spec fn section_of(
    config: OpenOtPersistenceConfig,
    backend: OpenOtPersistenceBackend,
) -> Option<SelectedSection> {
    match backend {
        OpenOtPersistenceBackend::Sqlite => match config.sqlite {
            Some(s) => Some(SelectedSection::Sqlite(s)),
            None => None,
        },
        OpenOtPersistenceBackend::InfluxDb3 => match config.influxdb3 {
            Some(s) => Some(SelectedSection::InfluxDb3(s)),
            None => None,
        },
        _ => match relational_of(config, backend) {
            Some(s) => Some(SelectedSection::Relational(backend, s)),
            None => None,
        },
    }
}

pub open spec fn relational_of(
    config: OpenOtPersistenceConfig,
    backend: OpenOtPersistenceBackend,
) -> Option<RelationalSection> {
    match backend {
        OpenOtPersistenceBackend::PostgreSql => config.postgresql,
        OpenOtPersistenceBackend::TimescaleDb => config.timescaledb,
        OpenOtPersistenceBackend::MySql => config.mysql,
        OpenOtPersistenceBackend::SqlServer => config.sqlserver,
        _ => None,
    }
}

pub open spec fn config_error(e: PersistenceError, text: Seq<char>) -> bool {
    e matches PersistenceError::InvalidConfig(m) && m@ == text
}

fn invalid(text: &str) -> (e: PersistenceError)
    ensures
        config_error(e, text@),
{
    let mut m = String::new();
    m.append(text);
    PersistenceError::InvalidConfig(m)
}

fn section_required(backend: OpenOtPersistenceBackend) -> (e: PersistenceError)
    ensures
        config_error(e, "runtime.openot.persistence."@ + backend_name(backend) + " is required"@),
{
    let mut m = String::new();
    m.append("runtime.openot.persistence.");
    m.append(backend.as_str());
    m.append(" is required");
    PersistenceError::InvalidConfig(m)
}

pub fn copy_text(o: &Option<String>) -> (r: Option<String>)
    ensures
        r == *o,
{
    match o {
        Some(s) => Some(s.clone()),
        None => None,
    }
}

fn copy_relational(s: &RelationalSection) -> (r: RelationalSection)
    ensures
        r == *s,
{
    RelationalSection {
        connection_url_env: s.connection_url_env.clone(),
        schema: s.schema.clone(),
        ca_cert_path: copy_text(&s.ca_cert_path),
    }
}

fn copy_influx(s: &InfluxDb3Section) -> (r: InfluxDb3Section)
    ensures
        r == *s,
{
    InfluxDb3Section {
        host_env: s.host_env.clone(),
        token_env: s.token_env.clone(),
        database: s.database.clone(),
        spool_path: s.spool_path.clone(),
        ca_cert_path: copy_text(&s.ca_cert_path),
        max_bytes: s.max_bytes,
    }
}

/// Chooses the section of the explicitly selected backend: persistence must
/// be enabled, a backend named, and its section present.
pub fn select_section(config: &OpenOtPersistenceConfig) -> (r: Result<SelectedSection, PersistenceError>)
    ensures
        !config.enabled ==> (r matches Err(e) && config_error(e, "runtime.openot.persistence is disabled"@)),
        config.enabled && config.backend is None ==> (r matches Err(e) && config_error(
            e,
            "runtime.openot.persistence.backend is required"@,
        )),
        config.backend matches Some(b) ==> (config.enabled ==> match section_of(*config, b) {
            Some(s) => r == Ok::<SelectedSection, PersistenceError>(s),
            None => r matches Err(e) && config_error(
                e,
                "runtime.openot.persistence."@ + backend_name(b) + " is required"@,
            ),
        }),
{
    if !config.enabled {
        return Err(invalid("runtime.openot.persistence is disabled"));
    }
    let backend = match config.backend {
        Some(b) => b,
        None => return Err(invalid("runtime.openot.persistence.backend is required")),
    };
    let section = match backend {
        OpenOtPersistenceBackend::Sqlite => match &config.sqlite {
            Some(s) => Some(SelectedSection::Sqlite(SqliteSection { path: s.path.clone() })),
            None => None,
        },
        OpenOtPersistenceBackend::InfluxDb3 => match &config.influxdb3 {
            Some(s) => Some(SelectedSection::InfluxDb3(copy_influx(s))),
            None => None,
        },
        OpenOtPersistenceBackend::PostgreSql => match &config.postgresql {
            Some(s) => Some(SelectedSection::Relational(backend, copy_relational(s))),
            None => None,
        },
        OpenOtPersistenceBackend::TimescaleDb => match &config.timescaledb {
            Some(s) => Some(SelectedSection::Relational(backend, copy_relational(s))),
            None => None,
        },
        OpenOtPersistenceBackend::MySql => match &config.mysql {
            Some(s) => Some(SelectedSection::Relational(backend, copy_relational(s))),
            None => None,
        },
        OpenOtPersistenceBackend::SqlServer => match &config.sqlserver {
            Some(s) => Some(SelectedSection::Relational(backend, copy_relational(s))),
            None => None,
        },
    };
    match section {
        Some(s) => Ok(s),
        None => Err(section_required(backend)),
    }
}


/// A configured path: absolute paths stand, relative ones are taken from
/// the bundle root (joined with one `/`).
pub open spec fn resolved_path(root: Seq<char>, path: Seq<char>) -> Seq<char> {
    if path.len() > 0 && path[0] == '/' {
        path
    } else if root.len() == 0 {
        path
    } else if root.last() == '/' {
        root + path
    } else {
        root + "/"@ + path
    }
}

/// Resolves a configured path against the bundle root.
pub fn resolve_path(root: &str, path: &str) -> (r: String)
    ensures
        r@ == resolved_path(root@, path@),
{
    let path_chars = crate::text::chars_of(path);
    let root_chars = crate::text::chars_of(root);
    let mut out = String::new();
    if path_chars.len() > 0 && path_chars[0] == '/' {
        out.append(path);
    } else if root_chars.len() == 0 {
        out.append(path);
    } else if root_chars[root_chars.len() - 1] == '/' {
        out.append(root);
        out.append(path);
    } else {
        out.append(root);
        out.append("/");
        out.append(path);
    }
    out
}

/// What the host needs to open the selected sink.
#[derive(Debug, Clone, PartialEq, Eq)]
pub enum SinkOpenRequest {
    Sqlite { path: String },
    Relational {
        backend: OpenOtPersistenceBackend,
        connection_url: String,
        schema: String,
        ca_cert_path: String,
    },
    InfluxDb3 {
        host: String,
        token: String,
        database: String,
        spool_path: String,
        ca_cert_path: String,
        max_bytes: u64,
    },
}

/// The environment variables a section names, in the order they are read.
pub open spec fn environment_names(section: SelectedSection) -> Seq<Seq<char>> {
    match section {
        SelectedSection::Sqlite(_) => Seq::empty(),
        SelectedSection::Relational(_, s) => seq![s.connection_url_env@],
        SelectedSection::InfluxDb3(s) => seq![s.host_env@, s.token_env@],
    }
}

/// The environment variables the selected section names.
pub fn required_environment(section: &SelectedSection) -> (r: Vec<String>)
    ensures
        r@.map_values(|s: String| s@) == environment_names(*section),
{
    let mut names: Vec<String> = Vec::new();
    match section {
        SelectedSection::Sqlite(_) => {},
        SelectedSection::Relational(_, s) => {
            names.push(s.connection_url_env.clone());
        },
        SelectedSection::InfluxDb3(s) => {
            names.push(s.host_env.clone());
            names.push(s.token_env.clone());
        },
    }
    assert(names@.map_values(|s: String| s@) =~= environment_names(*section));
    names
}

pub open spec fn env_missing_text(name: Seq<char>) -> Seq<char> {
    "environment variable '"@ + name + "' is not set"@
}

pub open spec fn ca_required_text(backend: OpenOtPersistenceBackend) -> Seq<char> {
    "runtime.openot.persistence."@ + backend_name(backend) + ".ca_cert_path is required"@
}

fn env_missing(name: &String) -> (e: PersistenceError)
    ensures
        config_error(e, env_missing_text(name@)),
{
    let mut m = String::new();
    m.append("environment variable '");
    m.append(name.as_str());
    m.append("' is not set");
    PersistenceError::InvalidConfig(m)
}

fn ca_required(backend: OpenOtPersistenceBackend) -> (e: PersistenceError)
    ensures
        config_error(e, ca_required_text(backend)),
{
    let mut m = String::new();
    m.append("runtime.openot.persistence.");
    m.append(backend.as_str());
    m.append(".ca_cert_path is required");
    PersistenceError::InvalidConfig(m)
}

/// An environment value that names something: set and not empty.
pub open spec fn env_given(value: Option<String>) -> bool {
    value matches Some(v) && v@.len() > 0
}

fn given(value: &Option<String>) -> (r: bool)
    ensures
        r == env_given(*value),
{
    match value {
        Some(v) => crate::text::chars_of(v.as_str()).len() > 0,
        None => false,
    }
}

/// Completes the open request from the values of the section's environment
/// variables (`None` when unset): each variable must be set to a non-empty
/// value, in order, and
/// network backends must name a CA certificate; paths are resolved against
/// the bundle root.
pub fn complete_open_request(
    section: &SelectedSection,
    environment: &Vec<Option<String>>,
    bundle_root: &str,
) -> (r: Result<SinkOpenRequest, PersistenceError>)
    requires
        environment.len() == environment_names(*section).len(),
    ensures
        match *section {
            SelectedSection::Sqlite(s) => r matches Ok(SinkOpenRequest::Sqlite { path }) && path@
                == resolved_path(bundle_root@, s.path@),
            SelectedSection::Relational(backend, s) => if !env_given(environment@[0]) {
                r matches Err(e) && config_error(e, env_missing_text(s.connection_url_env@))
            } else {
                match s.ca_cert_path {
                    None => r matches Err(e) && config_error(e, ca_required_text(backend)),
                    Some(ca) => r matches Ok(
                        SinkOpenRequest::Relational { backend: b, connection_url, schema, ca_cert_path },
                    ) && b == backend && Some(connection_url) == environment@[0] && schema == s.schema
                        && ca_cert_path@ == resolved_path(bundle_root@, ca@),
                }
            },
            SelectedSection::InfluxDb3(s) => if !env_given(environment@[0]) {
                r matches Err(e) && config_error(e, env_missing_text(s.host_env@))
            } else if !env_given(environment@[1]) {
                r matches Err(e) && config_error(e, env_missing_text(s.token_env@))
            } else {
                match s.ca_cert_path {
                    None => r matches Err(e) && config_error(
                        e,
                        ca_required_text(OpenOtPersistenceBackend::InfluxDb3),
                    ),
                    Some(ca) => r matches Ok(
                        SinkOpenRequest::InfluxDb3 {
                            host,
                            token,
                            database,
                            spool_path,
                            ca_cert_path,
                            max_bytes,
                        },
                    ) && Some(host) == environment@[0] && Some(token) == environment@[1]
                        && database == s.database && spool_path@
                        == resolved_path(bundle_root@, s.spool_path@) && ca_cert_path@ == resolved_path(
                        bundle_root@,
                        ca@,
                    ) && max_bytes == s.max_bytes,
                }
            },
        },
{
    match section {
        SelectedSection::Sqlite(s) => Ok(
            SinkOpenRequest::Sqlite { path: resolve_path(bundle_root, s.path.as_str()) },
        ),
        SelectedSection::Relational(backend, s) => {
            if !given(&environment[0]) {
                return Err(env_missing(&s.connection_url_env));
            }
            let url = match &environment[0] {
                Some(url) => url.clone(),
                None => return Err(env_missing(&s.connection_url_env)),
            };
            let ca = match &s.ca_cert_path {
                Some(ca) => ca,
                None => return Err(ca_required(*backend)),
            };
            Ok(
                SinkOpenRequest::Relational {
                    backend: *backend,
                    connection_url: url,
                    schema: s.schema.clone(),
                    ca_cert_path: resolve_path(bundle_root, ca.as_str()),
                },
            )
        },
        SelectedSection::InfluxDb3(s) => {
            if !given(&environment[0]) {
                return Err(env_missing(&s.host_env));
            }
            if !given(&environment[1]) {
                return Err(env_missing(&s.token_env));
            }
            let host = match &environment[0] {
                Some(h) => h.clone(),
                None => return Err(env_missing(&s.host_env)),
            };
            let token = match &environment[1] {
                Some(t) => t.clone(),
                None => return Err(env_missing(&s.token_env)),
            };
            let spool_path = resolve_path(bundle_root, s.spool_path.as_str());
            let ca = match &s.ca_cert_path {
                Some(ca) => ca,
                None => return Err(ca_required(OpenOtPersistenceBackend::InfluxDb3)),
            };
            Ok(
                SinkOpenRequest::InfluxDb3 {
                    host,
                    token,
                    database: s.database.clone(),
                    spool_path,
                    ca_cert_path: resolve_path(bundle_root, ca.as_str()),
                    max_bytes: s.max_bytes,
                },
            )
        },
    }
}

/// The CA certificate path a startup check must be able to read, with the
/// backend name used in its diagnostics: none for SQLite, required for
/// every network backend.
pub fn database_ca_path(config: &OpenOtPersistenceConfig, bundle_root: &str) -> (r: Result<
    Option<(OpenOtPersistenceBackend, String)>,
    PersistenceError,
>)
    ensures
        match config.backend {
            None => r matches Err(e) && config_error(
                e,
                "runtime.openot.persistence.backend is required"@,
            ),
            Some(OpenOtPersistenceBackend::Sqlite) => r == Ok::<
                Option<(OpenOtPersistenceBackend, String)>,
                PersistenceError,
            >(None),
            Some(b) => match configured_ca(*config, b) {
                None => r matches Err(e) && config_error(e, ca_required_text(b)),
                Some(ca) => r matches Ok(Some((backend, path))) && backend == b && path@
                    == resolved_path(bundle_root@, ca@),
            },
        },
{
    let backend = match config.backend {
        Some(b) => b,
        None => return Err(invalid("runtime.openot.persistence.backend is required")),
    };
    let configured: Option<&String> = match backend {
        OpenOtPersistenceBackend::Sqlite => return Ok(None),
        OpenOtPersistenceBackend::PostgreSql => match &config.postgresql {
            Some(s) => s.ca_cert_path.as_ref(),
            None => None,
        },
        OpenOtPersistenceBackend::TimescaleDb => match &config.timescaledb {
            Some(s) => s.ca_cert_path.as_ref(),
            None => None,
        },
        OpenOtPersistenceBackend::MySql => match &config.mysql {
            Some(s) => s.ca_cert_path.as_ref(),
            None => None,
        },
        OpenOtPersistenceBackend::SqlServer => match &config.sqlserver {
            Some(s) => s.ca_cert_path.as_ref(),
            None => None,
        },
        OpenOtPersistenceBackend::InfluxDb3 => match &config.influxdb3 {
            Some(s) => s.ca_cert_path.as_ref(),
            None => None,
        },
    };
    match configured {
        Some(ca) => Ok(Some((backend, resolve_path(bundle_root, ca.as_str())))),
        None => Err(ca_required(backend)),
    }
}

/// The CA certificate path configured for a backend's section, if any.
pub open spec fn configured_ca(
    config: OpenOtPersistenceConfig,
    backend: OpenOtPersistenceBackend,
) -> Option<String> {
    match backend {
        OpenOtPersistenceBackend::Sqlite => None,
        OpenOtPersistenceBackend::InfluxDb3 => match config.influxdb3 {
            Some(s) => s.ca_cert_path,
            None => None,
        },
        _ => match relational_of(config, backend) {
            Some(s) => s.ca_cert_path,
            None => None,
        },
    }
}
/// Rejects a PostgreSQL (or TimescaleDB) schema name that is not a SQL
/// identifier.
pub fn validate_postgresql_schema(value: &str) -> (r: Result<(), PersistenceError>)
    ensures
        sql_identifier(value@) ==> r is Ok,
        !sql_identifier(value@) ==> (r matches Err(PersistenceError::InvalidConfig(m)) && m@
            == "PostgreSQL schema must be a SQL identifier"@),
{
    check_identifier(value, "PostgreSQL schema must be a SQL identifier")
}

/// Rejects a MySQL or MariaDB database name that is not a SQL identifier.
pub fn validate_mysql_database(value: &str) -> (r: Result<(), PersistenceError>)
    ensures
        sql_identifier(value@) ==> r is Ok,
        !sql_identifier(value@) ==> (r matches Err(PersistenceError::InvalidConfig(m)) && m@
            == "MySQL database must be a SQL identifier"@),
{
    check_identifier(value, "MySQL database must be a SQL identifier")
}

/// The refusal of a recognized backend this build does not carry.
pub fn backend_unavailable(backend: OpenOtPersistenceBackend) -> (r: PersistenceError)
    ensures
        r matches PersistenceError::BackendUnavailable(m) && m@ == "runtime.openot.persistence.backend '"@
            + backend_name(backend) + "' is not compiled into this binary"@,
{
    let mut m = String::new();
    m.append("runtime.openot.persistence.backend '");
    m.append(backend.as_str());
    m.append("' is not compiled into this binary");
    PersistenceError::BackendUnavailable(m)
}
} // verus!
