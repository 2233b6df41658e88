pub mod mysql;

use vstd::prelude::*;
use vstd::string::StringExecFns;
use vstd::string::StrSliceExecFns;
use crate::models::connection::{ConnectionConfig, DatabaseType};
use crate::text;

verus! {

/// The failure taxonomy every backend maps its transport errors into. Each
/// variant carries a human-readable detail string; no transport-specific
/// error type crosses this boundary.
#[derive(Debug, Clone)]
pub enum DatabaseError {
    ConnectionFailed(String),
    QueryFailed(String),
    AuthenticationFailed(String),
    DatabaseNotFound(String),
    Timeout(String),
    UnsupportedType(String),
    Internal(String),
}

impl DatabaseError {
    /// The rendering a status display shows: a kind prefix and the detail.
    pub open spec fn spec_display(self) -> Seq<char> {
        match self {
            DatabaseError::ConnectionFailed(m) => "Connection failed: "@ + m@,
            DatabaseError::QueryFailed(m) => "Query failed: "@ + m@,
            DatabaseError::AuthenticationFailed(m) => "Authentication failed: "@ + m@,
            DatabaseError::DatabaseNotFound(m) => "Database not found: "@ + m@,
            DatabaseError::Timeout(m) => "Timeout: "@ + m@,
            DatabaseError::UnsupportedType(m) => "Unsupported database type: "@ + m@,
            DatabaseError::Internal(m) => "Internal error: "@ + m@,
        }
    }

    pub fn display_text(&self) -> (r: String)
        ensures
            r@ == self.spec_display(),
    {
        match self {
            DatabaseError::ConnectionFailed(m) => "Connection failed: ".to_owned().concat(
                m.as_str(),
            ),
            DatabaseError::QueryFailed(m) => "Query failed: ".to_owned().concat(m.as_str()),
            DatabaseError::AuthenticationFailed(m) => "Authentication failed: ".to_owned().concat(
                m.as_str(),
            ),
            DatabaseError::DatabaseNotFound(m) => "Database not found: ".to_owned().concat(
                m.as_str(),
            ),
            DatabaseError::Timeout(m) => "Timeout: ".to_owned().concat(m.as_str()),
            DatabaseError::UnsupportedType(m) => "Unsupported database type: ".to_owned().concat(
                m.as_str(),
            ),
            DatabaseError::Internal(m) => "Internal error: ".to_owned().concat(m.as_str()),
        }
    }
}

/// The view of an optional text field: present text as its character
/// sequence.
pub open spec fn opt_text_view(o: Option<String>) -> Option<Seq<char>> {
    match o {
        Some(s) => Some(s@),
        None => None,
    }
}

/// A database as the backend lists it; charset and collation are reported
/// only when the backend supplies them.
#[derive(Debug, Clone)]
pub struct DatabaseInfo {
    pub name: String,
    pub character_set: Option<String>,
    pub collation: Option<String>,
}

/// The mathematical content of a `DatabaseInfo`.
pub struct DatabaseInfoView {
    pub name: Seq<char>,
    pub character_set: Option<Seq<char>>,
    pub collation: Option<Seq<char>>,
}

impl View for DatabaseInfo {
    type V = DatabaseInfoView;

    open spec fn view(&self) -> DatabaseInfoView {
        DatabaseInfoView {
            name: self.name@,
            character_set: opt_text_view(self.character_set),
            collation: opt_text_view(self.collation),
        }
    }
}

/// Column metadata from schema introspection, ordered by ordinal position.
#[derive(Debug, Clone)]
pub struct ColumnDetails {
    pub name: String,
    pub data_type: String,
    pub nullable: bool,
    pub default_value: Option<String>,
    pub is_primary_key: bool,
    pub is_auto_increment: bool,
    pub comment: Option<String>,
}

/// The mathematical content of a `ColumnDetails`.
pub struct ColumnDetailsView {
    pub name: Seq<char>,
    pub data_type: Seq<char>,
    pub nullable: bool,
    pub default_value: Option<Seq<char>>,
    pub is_primary_key: bool,
    pub is_auto_increment: bool,
    pub comment: Option<Seq<char>>,
}

impl View for ColumnDetails {
    type V = ColumnDetailsView;

    open spec fn view(&self) -> ColumnDetailsView {
        ColumnDetailsView {
            name: self.name@,
            data_type: self.data_type@,
            nullable: self.nullable,
            default_value: opt_text_view(self.default_value),
            is_primary_key: self.is_primary_key,
            is_auto_increment: self.is_auto_increment,
            comment: opt_text_view(self.comment),
        }
    }
}

/// A base table: listing queries leave `columns` empty; `describe` fills it.
#[derive(Debug, Clone)]
pub struct TableInfo {
    pub name: String,
    pub database: String,
    pub engine: Option<String>,
    pub row_count: Option<u64>,
    pub data_size: Option<u64>,
    pub columns: Vec<ColumnDetails>,
}

/// The mathematical content of a `TableInfo`.
pub struct TableInfoView {
    pub name: Seq<char>,
    pub database: Seq<char>,
    pub engine: Option<Seq<char>>,
    pub row_count: Option<u64>,
    pub data_size: Option<u64>,
    pub columns: Seq<ColumnDetailsView>,
}

impl View for TableInfo {
    type V = TableInfoView;

    open spec fn view(&self) -> TableInfoView {
        TableInfoView {
            name: self.name@,
            database: self.database@,
            engine: opt_text_view(self.engine),
            row_count: self.row_count,
            data_size: self.data_size,
            columns: self.columns@.map_values(|c: ColumnDetails| c@),
        }
    }
}

/// A view, with its defining text when the backend reports it.
#[derive(Debug, Clone)]
pub struct ViewInfo {
    pub name: String,
    pub database: String,
    pub definition: Option<String>,
}

/// The mathematical content of a `ViewInfo`.
pub struct ViewInfoView {
    pub name: Seq<char>,
    pub database: Seq<char>,
    pub definition: Option<Seq<char>>,
}

impl View for ViewInfo {
    type V = ViewInfoView;

    open spec fn view(&self) -> ViewInfoView {
        ViewInfoView {
            name: self.name@,
            database: self.database@,
            definition: opt_text_view(self.definition),
        }
    }
}

/// An index over a table's columns.
#[derive(Debug, Clone)]
pub struct IndexInfo {
    pub name: String,
    pub table: String,
    pub columns: Vec<String>,
    pub is_unique: bool,
    pub is_primary: bool,
}

/// Any schema entity, for callers that hold a mixed selection.
#[derive(Debug, Clone)]
pub enum SchemaObject {
    Database(DatabaseInfo),
    Table(TableInfo),
    View(ViewInfo),
    Column(ColumnDetails),
    Index(IndexInfo),
}

/// Everything the backend driver needs to open its bounded pool of physical
/// connections: the URI to dial and the fixed upper bound on pool size.
#[derive(Debug, Clone)]
pub struct ConnectPlan {
    pub url: String,
    pub max_connections: u32,
}

/// The fixed cap on physical connections a driver's pool may open.
pub open spec fn spec_pool_bound() -> u32 {
    5
}

/// Whether a backend tag has an implemented driver.
pub fn backend_supported(db_type: &DatabaseType) -> (r: bool)
    ensures
        r == (db_type is MySQL),
{
    matches!(db_type, DatabaseType::MySQL)
}

/// The factory's dispatch: for a supported backend tag, the plan the driver
/// dials; for a recognized but unimplemented tag, `UnsupportedType` at once.
/// This decision is synchronous and side-effect-free, so a caller can tell
/// "not yet supported" from "attempted and failed".
pub fn connection_plan(config: &ConnectionConfig) -> (r: Result<ConnectPlan, DatabaseError>)
    ensures
        config.db_type is MySQL ==> (r matches Ok(p) && p.url@ == config.spec_connection_string()
            && p.max_connections == spec_pool_bound()),
        config.db_type is PostgreSQL ==> (r matches Err(DatabaseError::UnsupportedType(m)) && m@
            == "PostgreSQL support coming soon"@),
        config.db_type is SQLite ==> (r matches Err(DatabaseError::UnsupportedType(m)) && m@
            == "SQLite support coming soon"@),
        config.db_type is MongoDB ==> (r matches Err(DatabaseError::UnsupportedType(m)) && m@
            == "MongoDB support coming soon"@),
{
    match config.db_type {
        DatabaseType::MySQL => Ok(
            ConnectPlan { url: config.connection_string(), max_connections: 5 },
        ),
        DatabaseType::PostgreSQL => Err(
            DatabaseError::UnsupportedType("PostgreSQL support coming soon".to_owned()),
        ),
        DatabaseType::SQLite => Err(
            DatabaseError::UnsupportedType("SQLite support coming soon".to_owned()),
        ),
        DatabaseType::MongoDB => Err(
            DatabaseError::UnsupportedType("MongoDB support coming soon".to_owned()),
        ),
    }
}

/// Whether statement text is expected to produce a result set: after leading
/// whitespace it begins with one of the result-producing keywords, ignoring
/// ASCII letter case. Such text goes to `execute_query`; everything else is
/// a side-effecting statement for `execute_statement`.
pub open spec fn spec_is_query_statement(s: Seq<char>) -> bool {
    let i = text::spec_skip_spaces(s, 0);
    ||| text::matches_keyword_at(s, "SELECT"@, i)
    ||| text::matches_keyword_at(s, "SHOW"@, i)
    ||| text::matches_keyword_at(s, "DESCRIBE"@, i)
    ||| text::matches_keyword_at(s, "EXPLAIN"@, i)
}

/// Classifies statement text as result-producing or side-effecting.
pub fn is_query_statement(sql: &str) -> (r: bool)
    ensures
        r == spec_is_query_statement(sql@),
{
    let n = sql.unicode_len();
    let mut i: usize = 0;
    let mut scanning = true;
    while scanning && i < n
        invariant
            n == sql@.len(),
            i <= n,
            text::spec_skip_spaces(sql@, 0) == text::spec_skip_spaces(sql@, i as int),
            !scanning ==> i < n && !text::is_space_char(sql@[i as int]),
        decreases n - i, (if scanning { 1int } else { 0int }),
    {
        let c = sql.get_char(i);
        if c == ' ' || c == '\t' || c == '\n' || c == '\r' {
            i += 1;
        } else {
            scanning = false;
        }
    }
    proof {
        assert(text::spec_skip_spaces(sql@, i as int) == i as int);
    }
    text::keyword_at(sql, i, "SELECT") || text::keyword_at(sql, i, "SHOW") || text::keyword_at(
        sql,
        i,
        "DESCRIBE",
    ) || text::keyword_at(sql, i, "EXPLAIN")
}

} // verus!
