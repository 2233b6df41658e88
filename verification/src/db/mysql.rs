//! The pure logic of the MySQL-family backend driver: mapping backend-native
//! column type names onto the value model, materializing rows from decoded
//! wire values, composing introspection and data-page SQL, and parsing the
//! rows those queries return. The network calls that surround this logic are
//! the caller's: it hands in what the wire produced as plain values.

use vstd::prelude::*;
use vstd::string::StringExecFns;
use crate::db::{
    opt_text_view, ColumnDetails, ColumnDetailsView, DatabaseError, DatabaseInfo,
    DatabaseInfoView, TableInfo, TableInfoView, ViewInfo, ViewInfoView,
};
use crate::models::query::{CellValue, ColumnInfo, QueryResult};
use crate::text;

verus! {

/// The value-model variant a column's cells are coerced into, chosen from
/// the backend-native column type name.
#[derive(Debug, Clone, Copy, PartialEq, Eq, Structural)]
pub enum CellKind {
    Bool,
    Int,
    Float,
    DateTime,
    Json,
    Bytes,
    Text,
}

/// The mapping table from backend-native type names to value-model variants:
/// a total, deterministic function of the type name. Any name outside the
/// table falls through to `Text`.
pub open spec fn spec_kind_of(name: Seq<char>) -> CellKind {
    if name == "BOOLEAN"@ || name == "BOOL"@ {
        CellKind::Bool
    } else if name == "TINYINT"@ || name == "SMALLINT"@ || name == "INT"@ || name == "MEDIUMINT"@
        || name == "BIGINT"@ {
        CellKind::Int
    } else if name == "TINYINT UNSIGNED"@ || name == "SMALLINT UNSIGNED"@ || name
        == "INT UNSIGNED"@ || name == "MEDIUMINT UNSIGNED"@ || name == "BIGINT UNSIGNED"@ {
        CellKind::Int
    } else if name == "FLOAT"@ || name == "DOUBLE"@ || name == "DECIMAL"@ {
        CellKind::Float
    } else if name == "DATE"@ || name == "TIME"@ || name == "DATETIME"@ || name == "TIMESTAMP"@ {
        CellKind::DateTime
    } else if name == "JSON"@ {
        CellKind::Json
    } else if name == "BLOB"@ || name == "BINARY"@ || name == "VARBINARY"@ || name == "TINYBLOB"@
        || name == "MEDIUMBLOB"@ || name == "LONGBLOB"@ {
        CellKind::Bytes
    } else {
        CellKind::Text
    }
}

/// Chooses the value-model variant for a backend-native column type name.
pub fn kind_for_type_name(name: &str) -> (k: CellKind)
    ensures
        k == spec_kind_of(name@),
{
    if text::str_eq(name, "BOOLEAN") || text::str_eq(name, "BOOL") {
        CellKind::Bool
    } else if text::str_eq(name, "TINYINT") || text::str_eq(name, "SMALLINT") || text::str_eq(
        name,
        "INT",
    ) || text::str_eq(name, "MEDIUMINT") || text::str_eq(name, "BIGINT") {
        CellKind::Int
    } else if text::str_eq(name, "TINYINT UNSIGNED") || text::str_eq(name, "SMALLINT UNSIGNED")
        || text::str_eq(name, "INT UNSIGNED") || text::str_eq(name, "MEDIUMINT UNSIGNED")
        || text::str_eq(name, "BIGINT UNSIGNED") {
        CellKind::Int
    } else if text::str_eq(name, "FLOAT") || text::str_eq(name, "DOUBLE") || text::str_eq(
        name,
        "DECIMAL",
    ) {
        CellKind::Float
    } else if text::str_eq(name, "DATE") || text::str_eq(name, "TIME") || text::str_eq(
        name,
        "DATETIME",
    ) || text::str_eq(name, "TIMESTAMP") {
        CellKind::DateTime
    } else if text::str_eq(name, "JSON") {
        CellKind::Json
    } else if text::str_eq(name, "BLOB") || text::str_eq(name, "BINARY") || text::str_eq(
        name,
        "VARBINARY",
    ) || text::str_eq(name, "TINYBLOB") || text::str_eq(name, "MEDIUMBLOB") || text::str_eq(
        name,
        "LONGBLOB",
    ) {
        CellKind::Bytes
    } else {
        CellKind::Text
    }
}

/// The mapping is deterministic: equal type names always choose equal
/// value-model variants.
pub proof fn lemma_kind_mapping_deterministic(a: Seq<char>, b: Seq<char>)
    requires
        a == b,
    ensures
        spec_kind_of(a) == spec_kind_of(b),
{
}

/// What the driver could decode one cell into, before coercion into the
/// value model: `Missing` when the wire value could not be read as the type
/// the column's kind calls for.
#[derive(Debug)]
pub enum RawField {
    Missing,
    Bool(bool),
    Int(i64),
    FloatBits(u64),
    Text(String),
    Bytes(Vec<u8>),
}

/// Whether a decoded value has the shape the column's kind calls for.
pub open spec fn spec_coercible(kind: CellKind, raw: RawField) -> bool {
    match (kind, raw) {
        (CellKind::Bool, RawField::Bool(_)) => true,
        (CellKind::Int, RawField::Int(_)) => true,
        (CellKind::Float, RawField::FloatBits(_)) => true,
        (CellKind::DateTime, RawField::Text(_)) => true,
        (CellKind::Json, RawField::Text(_)) => true,
        (CellKind::Bytes, RawField::Bytes(_)) => true,
        (CellKind::Text, RawField::Text(_)) => true,
        _ => false,
    }
}

/// The cell a decoded value materializes into: the kind's variant when the
/// value coerces, `Null` otherwise.
pub open spec fn spec_materialize(kind: CellKind, raw: RawField) -> CellValue {
    match (kind, raw) {
        (CellKind::Bool, RawField::Bool(b)) => CellValue::Bool(b),
        (CellKind::Int, RawField::Int(i)) => CellValue::Int(i),
        (CellKind::Float, RawField::FloatBits(x)) => CellValue::Float(x),
        (CellKind::DateTime, RawField::Text(s)) => CellValue::DateTime(s),
        (CellKind::Json, RawField::Text(s)) => CellValue::Json(s),
        (CellKind::Bytes, RawField::Bytes(v)) => CellValue::Bytes(v),
        (CellKind::Text, RawField::Text(s)) => CellValue::String(s),
        _ => CellValue::Null,
    }
}

/// Coercion failure never raises an error: a value that does not fit its
/// column's kind materializes as `Null`, so one unreadable cell cannot abort
/// an otherwise-valid row.
pub proof fn lemma_mismatch_materializes_null(kind: CellKind, raw: RawField)
    ensures
        !spec_coercible(kind, raw) ==> spec_materialize(kind, raw) is Null,
        spec_coercible(kind, raw) ==> !(spec_materialize(kind, raw) is Null),
{
}

/// Materializes one cell.
pub fn materialize_cell(kind: CellKind, raw: RawField) -> (c: CellValue)
    ensures
        c == spec_materialize(kind, raw),
{
    match (kind, raw) {
        (CellKind::Bool, RawField::Bool(b)) => CellValue::Bool(b),
        (CellKind::Int, RawField::Int(i)) => CellValue::Int(i),
        (CellKind::Float, RawField::FloatBits(x)) => CellValue::Float(x),
        (CellKind::DateTime, RawField::Text(s)) => CellValue::DateTime(s),
        (CellKind::Json, RawField::Text(s)) => CellValue::Json(s),
        (CellKind::Bytes, RawField::Bytes(v)) => CellValue::Bytes(v),
        (CellKind::Text, RawField::Text(s)) => CellValue::String(s),
        (_, _) => CellValue::Null,
    }
}

/// The cells one row materializes into: one per column kind, positionally;
/// a column beyond the decoded row's end counts as unreadable.
pub open spec fn spec_row_cells(kinds: Seq<CellKind>, raw: Seq<RawField>) -> Seq<CellValue> {
    Seq::new(
        kinds.len(),
        |j: int|
            spec_materialize(
                kinds[j],
                if 0 <= j < raw.len() {
                    raw[j]
                } else {
                    RawField::Missing
                },
            ),
    )
}

/// Materializes one decoded row against the column kinds: always exactly one
/// cell per column.
pub fn materialize_row(kinds: &Vec<CellKind>, raw: Vec<RawField>) -> (row: Vec<CellValue>)
    ensures
        row@ == spec_row_cells(kinds@, raw@),
{
    let ghost original = raw@;
    let mut rest = raw;
    let mut row: Vec<CellValue> = Vec::new();
    let n = kinds.len();
    let mut j: usize = 0;
    while j < n
        invariant
            n == kinds@.len(),
            j <= n,
            row@.len() == j,
            rest@ == if j <= original.len() {
                original.subrange(j as int, original.len() as int)
            } else {
                Seq::<RawField>::empty()
            },
            forall|t: int|
                0 <= t < j ==> row@[t] == spec_materialize(
                    kinds@[t],
                    if t < original.len() {
                        original[t]
                    } else {
                        RawField::Missing
                    },
                ),
        decreases n - j,
    {
        let f = if rest.len() > 0 {
            rest.remove(0)
        } else {
            RawField::Missing
        };
        row.push(materialize_cell(kinds[j], f));
        j += 1;
    }
    proof {
        assert(row@ =~= spec_row_cells(kinds@, original));
    }
    row
}

/// The column metadata a result set reports: names and declared types from
/// the wire, with the permissive defaults for the flags the backend does not
/// report inline.
pub open spec fn spec_result_columns(names: Seq<String>, types: Seq<String>) -> Seq<ColumnInfo> {
    Seq::new(
        names.len(),
        |i: int|
            ColumnInfo {
                name: names[i],
                data_type: types[i],
                nullable: true,
                is_primary_key: false,
            },
    )
}

/// The kinds a row's cells are coerced into, one per declared column type.
pub open spec fn spec_kinds_of(types: Seq<String>) -> Seq<CellKind> {
    Seq::new(types.len(), |i: int| spec_kind_of(types[i]@))
}

/// Assembles a `QueryResult` from what a result-producing statement sent
/// back: column names, declared column types, the decoded rows, and the
/// measured wall-clock duration. A statement that returned no rows yields an
/// empty result; otherwise every row materializes to exactly one cell per
/// column, so the result is well formed by construction.
pub fn build_query_result(
    names: Vec<String>,
    types: Vec<String>,
    raw_rows: Vec<Vec<RawField>>,
    execution_time_ms: u64,
) -> (r: QueryResult)
    requires
        names@.len() == types@.len(),
    ensures
        r.well_formed(),
        r.affected_rows is None,
        r.execution_time_ms == execution_time_ms,
        raw_rows@.len() == 0 ==> r.columns@.len() == 0 && r.rows@.len() == 0,
        raw_rows@.len() > 0 ==> r.columns@ == spec_result_columns(names@, types@),
        raw_rows@.len() > 0 ==> r.rows@.len() == raw_rows@.len(),
        raw_rows@.len() > 0 ==> forall|i: int|
            0 <= i < raw_rows@.len() ==> #[trigger] r.rows@[i]@ == spec_row_cells(
                spec_kinds_of(types@),
                raw_rows@[i]@,
            ),
{
    if raw_rows.len() == 0 {
        return QueryResult::empty(execution_time_ms);
    }
    let n = names.len();

    let mut kinds: Vec<CellKind> = Vec::new();
    let mut i: usize = 0;
    while i < n
        invariant
            n == types@.len(),
            i <= n,
            kinds@.len() == i,
            forall|t: int| 0 <= t < i ==> kinds@[t] == spec_kind_of(types@[t]@),
        decreases n - i,
    {
        kinds.push(kind_for_type_name(types[i].as_str()));
        i += 1;
    }
    proof {
        assert(kinds@ =~= spec_kinds_of(types@));
    }

    let ghost names_seq = names@;
    let ghost types_seq = types@;
    let mut names_rest = names;
    let mut types_rest = types;
    let mut columns: Vec<ColumnInfo> = Vec::new();
    let mut i: usize = 0;
    while i < n
        invariant
            n == names_seq.len(),
            n == types_seq.len(),
            i <= n,
            columns@.len() == i,
            names_rest@ == names_seq.subrange(i as int, n as int),
            types_rest@ == types_seq.subrange(i as int, n as int),
            forall|t: int|
                0 <= t < i ==> columns@[t] == (ColumnInfo {
                    name: names_seq[t],
                    data_type: types_seq[t],
                    nullable: true,
                    is_primary_key: false,
                }),
        decreases n - i,
    {
        let name = names_rest.remove(0);
        let data_type = types_rest.remove(0);
        columns.push(ColumnInfo { name, data_type, nullable: true, is_primary_key: false });
        i += 1;
    }
    proof {
        assert(columns@ =~= spec_result_columns(names_seq, types_seq));
    }

    let ghost rows_seq = raw_rows@;
    let mut rows_rest = raw_rows;
    let mut rows: Vec<Vec<CellValue>> = Vec::new();
    let m = rows_rest.len();
    let mut i: usize = 0;
    while i < m
        invariant
            m == rows_seq.len(),
            i <= m,
            rows@.len() == i,
            rows_rest@ == rows_seq.subrange(i as int, m as int),
            kinds@ == spec_kinds_of(types_seq),
            kinds@.len() == n,
            forall|t: int|
                0 <= t < i ==> #[trigger] rows@[t]@ == spec_row_cells(
                    spec_kinds_of(types_seq),
                    rows_seq[t]@,
                ),
        decreases m - i,
    {
        let raw = rows_rest.remove(0);
        rows.push(materialize_row(&kinds, raw));
        i += 1;
    }

    QueryResult { columns, rows, affected_rows: None, execution_time_ms }
}

/// The liveness probe the driver issues.
pub fn test_connection_sql() -> (r: &'static str)
    ensures
        r@ == "SELECT 1"@,
{
    "SELECT 1"
}

/// The database-listing statement the driver issues.
pub fn show_databases_sql() -> (r: &'static str)
    ensures
        r@ == "SHOW DATABASES"@,
{
    "SHOW DATABASES"
}

/// The base-table listing query, scoped to one database. Views are excluded
/// by the `TABLE_TYPE` restriction, not filtered downstream.
pub open spec fn spec_list_tables_sql(database: Seq<char>) -> Seq<char> {
    "SELECT TABLE_NAME, ENGINE, TABLE_ROWS, DATA_LENGTH FROM information_schema.TABLES WHERE TABLE_SCHEMA = '"@
        + database + "' AND TABLE_TYPE = 'BASE TABLE'"@
}

pub fn list_tables_sql(database: &str) -> (r: String)
    ensures
        r@ == spec_list_tables_sql(database@),
{
    let mut r =
        "SELECT TABLE_NAME, ENGINE, TABLE_ROWS, DATA_LENGTH FROM information_schema.TABLES WHERE TABLE_SCHEMA = '".to_owned();
    r.append(database);
    r.append("' AND TABLE_TYPE = 'BASE TABLE'");
    r
}

/// The view-listing query, scoped to one database.
pub open spec fn spec_list_views_sql(database: Seq<char>) -> Seq<char> {
    "SELECT TABLE_NAME, VIEW_DEFINITION FROM information_schema.VIEWS WHERE TABLE_SCHEMA = '"@
        + database + "'"@
}

pub fn list_views_sql(database: &str) -> (r: String)
    ensures
        r@ == spec_list_views_sql(database@),
{
    let mut r =
        "SELECT TABLE_NAME, VIEW_DEFINITION FROM information_schema.VIEWS WHERE TABLE_SCHEMA = '".to_owned();
    r.append(database);
    r.append("'");
    r
}

/// The column introspection query for one table, ordered by the backend's
/// ordinal position column so the returned sequence is the declared order.
pub open spec fn spec_describe_table_sql(database: Seq<char>, table: Seq<char>) -> Seq<char> {
    "SELECT COLUMN_NAME, COLUMN_TYPE, IS_NULLABLE, COLUMN_DEFAULT, COLUMN_KEY, EXTRA, COLUMN_COMMENT FROM information_schema.COLUMNS WHERE TABLE_SCHEMA = '"@
        + database + "' AND TABLE_NAME = '"@ + table + "' ORDER BY ORDINAL_POSITION"@
}

pub fn describe_table_sql(database: &str, table: &str) -> (r: String)
    ensures
        r@ == spec_describe_table_sql(database@, table@),
{
    let mut r =
        "SELECT COLUMN_NAME, COLUMN_TYPE, IS_NULLABLE, COLUMN_DEFAULT, COLUMN_KEY, EXTRA, COLUMN_COMMENT FROM information_schema.COLUMNS WHERE TABLE_SCHEMA = '".to_owned();
    r.append(database);
    r.append("' AND TABLE_NAME = '");
    r.append(table);
    r.append("' ORDER BY ORDINAL_POSITION");
    r
}

/// The bounded data-page query over one qualified table. Identifiers are
/// quoted with the backend's backtick convention; the limit and offset are
/// the caller's, interpolated in decimal.
pub open spec fn spec_table_data_sql(
    database: Seq<char>,
    table: Seq<char>,
    limit: u32,
    offset: u32,
) -> Seq<char> {
    "SELECT * FROM `"@ + database + "`.`"@ + table + "` LIMIT "@ + text::spec_u64_text(
        limit as nat,
    ) + " OFFSET "@ + text::spec_u64_text(offset as nat)
}

pub fn table_data_sql(database: &str, table: &str, limit: u32, offset: u32) -> (r: String)
    ensures
        r@ == spec_table_data_sql(database@, table@, limit, offset),
{
    let mut r = "SELECT * FROM `".to_owned();
    r.append(database);
    r.append("`.`");
    r.append(table);
    r.append("` LIMIT ");
    let limit_text = text::u64_text(limit as u64);
    r.append(limit_text.as_str());
    r.append(" OFFSET ");
    let offset_text = text::u64_text(offset as u64);
    r.append(offset_text.as_str());
    r
}

/// The bounded preview query the schema tree offers for a table or view.
pub open spec fn spec_table_preview_sql(database: Seq<char>, table: Seq<char>) -> Seq<char> {
    "SELECT * FROM `"@ + database + "`.`"@ + table + "` LIMIT 100"@
}

pub fn table_preview_sql(database: &str, table: &str) -> (r: String)
    ensures
        r@ == spec_table_preview_sql(database@, table@),
{
    let mut r = "SELECT * FROM `".to_owned();
    r.append(database);
    r.append("`.`");
    r.append(table);
    r.append("` LIMIT 100");
    r
}

/// Reinterprets a backend-reported signed count as the unsigned count it
/// stands for, wrapping negatives around as the two's-complement bit pattern.
pub open spec fn spec_wrap_u64(v: i64) -> u64 {
    if v >= 0 {
        v as u64
    } else {
        (v + 0x1_0000_0000_0000_0000) as u64
    }
}

fn i64_wrap_u64(v: i64) -> (r: u64)
    ensures
        r == spec_wrap_u64(v),
{
    if v >= 0 {
        v as u64
    } else {
        ((v as i128) + 0x1_0000_0000_0000_0000i128) as u64
    }
}

/// One row of the database listing: the name, when it decoded as text.
pub type NameRow = Option<String>;

/// The databases a listing's rows describe: one entry per row whose name
/// decoded, in row order; rows without a readable name are dropped.
pub open spec fn spec_database_infos(rows: Seq<Option<Seq<char>>>) -> Seq<DatabaseInfoView>
    decreases rows.len(),
{
    if rows.len() == 0 {
        Seq::empty()
    } else {
        let init = spec_database_infos(rows.drop_last());
        match rows.last() {
            Some(name) => init.push(
                DatabaseInfoView { name, character_set: None, collation: None },
            ),
            None => init,
        }
    }
}

/// Builds the database list from the listing's decoded rows.
pub fn database_infos_from_rows(rows: Vec<NameRow>) -> (r: Vec<DatabaseInfo>)
    ensures
        r@.map_values(|d: DatabaseInfo| d@) == spec_database_infos(
            rows@.map_values(|n: NameRow| opt_text_view(n)),
        ),
{
    let ghost rows_seq = rows@;
    let mut rest = rows;
    let mut r: Vec<DatabaseInfo> = Vec::new();
    let n = rest.len();
    let mut i: usize = 0;
    while i < n
        invariant
            n == rows_seq.len(),
            i <= n,
            rest@ == rows_seq.subrange(i as int, n as int),
            r@.map_values(|d: DatabaseInfo| d@) == spec_database_infos(
                rows_seq.subrange(0, i as int).map_values(|x: NameRow| opt_text_view(x)),
            ),
        decreases n - i,
    {
        let ghost prefix = rows_seq.subrange(0, i as int).map_values(
            |x: NameRow| opt_text_view(x),
        );
        let row = rest.remove(0);
        match row {
            Some(name) => {
                let d = DatabaseInfo { name, character_set: None, collation: None };
                r.push(d);
            },
            None => {},
        }
        i += 1;
        proof {
            let next = rows_seq.subrange(0, i as int).map_values(|x: NameRow| opt_text_view(x));
            assert(next =~= prefix.push(opt_text_view(rows_seq[i - 1])));
            assert(next.drop_last() =~= prefix);
        }
    }
    proof {
        assert(rows_seq.subrange(0, n as int) =~= rows_seq);
    }
    r
}

/// One decoded row of the base-table listing.
#[derive(Debug)]
pub struct TablesRow {
    pub name: Option<String>,
    pub engine: Option<String>,
    pub row_count: Option<i64>,
    pub data_size: Option<i64>,
}

/// The mathematical content of a `TablesRow`.
pub struct TablesRowView {
    pub name: Option<Seq<char>>,
    pub engine: Option<Seq<char>>,
    pub row_count: Option<i64>,
    pub data_size: Option<i64>,
}

impl View for TablesRow {
    type V = TablesRowView;

    open spec fn view(&self) -> TablesRowView {
        TablesRowView {
            name: opt_text_view(self.name),
            engine: opt_text_view(self.engine),
            row_count: self.row_count,
            data_size: self.data_size,
        }
    }
}

/// The wrapped unsigned reading of an optional signed count.
pub open spec fn spec_opt_wrap(v: Option<i64>) -> Option<u64> {
    match v {
        Some(x) => Some(spec_wrap_u64(x)),
        None => None,
    }
}

/// The tables a listing's rows describe, scoped to `database`: one entry per
/// row whose name decoded, in row order, with empty column details (a
/// listing does not describe columns).
pub open spec fn spec_table_infos(database: Seq<char>, rows: Seq<TablesRowView>) -> Seq<
    TableInfoView,
>
    decreases rows.len(),
{
    if rows.len() == 0 {
        Seq::empty()
    } else {
        let init = spec_table_infos(database, rows.drop_last());
        let row = rows.last();
        match row.name {
            Some(name) => init.push(
                TableInfoView {
                    name,
                    database,
                    engine: row.engine,
                    row_count: spec_opt_wrap(row.row_count),
                    data_size: spec_opt_wrap(row.data_size),
                    columns: Seq::empty(),
                },
            ),
            None => init,
        }
    }
}

/// Builds the base-table list from the listing's decoded rows.
pub fn table_infos_from_rows(database: &str, rows: Vec<TablesRow>) -> (r: Vec<TableInfo>)
    ensures
        r@.map_values(|t: TableInfo| t@) == spec_table_infos(
            database@,
            rows@.map_values(|x: TablesRow| x@),
        ),
{
    let ghost rows_seq = rows@;
    let mut rest = rows;
    let mut r: Vec<TableInfo> = Vec::new();
    let n = rest.len();
    let mut i: usize = 0;
    while i < n
        invariant
            n == rows_seq.len(),
            i <= n,
            rest@ == rows_seq.subrange(i as int, n as int),
            r@.map_values(|t: TableInfo| t@) == spec_table_infos(
                database@,
                rows_seq.subrange(0, i as int).map_values(|x: TablesRow| x@),
            ),
        decreases n - i,
    {
        let ghost prefix = rows_seq.subrange(0, i as int).map_values(|x: TablesRow| x@);
        let row = rest.remove(0);
        match row.name {
            Some(name) => {
                let row_count = match row.row_count {
                    Some(v) => Some(i64_wrap_u64(v)),
                    None => None,
                };
                let data_size = match row.data_size {
                    Some(v) => Some(i64_wrap_u64(v)),
                    None => None,
                };
                let t = TableInfo {
                    name,
                    database: database.to_owned(),
                    engine: row.engine,
                    row_count,
                    data_size,
                    columns: Vec::new(),
                };
                proof {
                    assert(t@.columns =~= Seq::<ColumnDetailsView>::empty());
                }
                r.push(t);
            },
            None => {},
        }
        i += 1;
        proof {
            let next = rows_seq.subrange(0, i as int).map_values(|x: TablesRow| x@);
            assert(next =~= prefix.push(rows_seq[i - 1]@));
            assert(next.drop_last() =~= prefix);
        }
    }
    proof {
        assert(rows_seq.subrange(0, n as int) =~= rows_seq);
    }
    r
}

/// One decoded row of the view listing.
#[derive(Debug)]
pub struct ViewsRow {
    pub name: Option<String>,
    pub definition: Option<String>,
}

/// The mathematical content of a `ViewsRow`.
pub struct ViewsRowView {
    pub name: Option<Seq<char>>,
    pub definition: Option<Seq<char>>,
}

impl View for ViewsRow {
    type V = ViewsRowView;

    open spec fn view(&self) -> ViewsRowView {
        ViewsRowView {
            name: opt_text_view(self.name),
            definition: opt_text_view(self.definition),
        }
    }
}

/// The views a listing's rows describe, scoped to `database`.
pub open spec fn spec_view_infos(database: Seq<char>, rows: Seq<ViewsRowView>) -> Seq<ViewInfoView>
    decreases rows.len(),
{
    if rows.len() == 0 {
        Seq::empty()
    } else {
        let init = spec_view_infos(database, rows.drop_last());
        let row = rows.last();
        match row.name {
            Some(name) => init.push(ViewInfoView { name, database, definition: row.definition }),
            None => init,
        }
    }
}

/// Builds the view list from the listing's decoded rows.
pub fn view_infos_from_rows(database: &str, rows: Vec<ViewsRow>) -> (r: Vec<ViewInfo>)
    ensures
        r@.map_values(|v: ViewInfo| v@) == spec_view_infos(
            database@,
            rows@.map_values(|x: ViewsRow| x@),
        ),
{
    let ghost rows_seq = rows@;
    let mut rest = rows;
    let mut r: Vec<ViewInfo> = Vec::new();
    let n = rest.len();
    let mut i: usize = 0;
    while i < n
        invariant
            n == rows_seq.len(),
            i <= n,
            rest@ == rows_seq.subrange(i as int, n as int),
            r@.map_values(|v: ViewInfo| v@) == spec_view_infos(
                database@,
                rows_seq.subrange(0, i as int).map_values(|x: ViewsRow| x@),
            ),
        decreases n - i,
    {
        let ghost prefix = rows_seq.subrange(0, i as int).map_values(|x: ViewsRow| x@);
        let row = rest.remove(0);
        match row.name {
            Some(name) => {
                let v = ViewInfo { name, database: database.to_owned(), definition: row.definition };
                r.push(v);
            },
            None => {},
        }
        i += 1;
        proof {
            let next = rows_seq.subrange(0, i as int).map_values(|x: ViewsRow| x@);
            assert(next =~= prefix.push(rows_seq[i - 1]@));
            assert(next.drop_last() =~= prefix);
        }
    }
    proof {
        assert(rows_seq.subrange(0, n as int) =~= rows_seq);
    }
    r
}

/// One decoded row of the column introspection query, in the order its
/// columns are selected.
#[derive(Debug)]
pub struct ColumnsRow {
    pub name: Option<String>,
    pub column_type: Option<String>,
    pub is_nullable: Option<String>,
    pub column_default: Option<String>,
    pub column_key: Option<String>,
    pub extra: Option<String>,
    pub comment: Option<String>,
}

/// The mathematical content of a `ColumnsRow`.
pub struct ColumnsRowView {
    pub name: Option<Seq<char>>,
    pub column_type: Option<Seq<char>>,
    pub is_nullable: Option<Seq<char>>,
    pub column_default: Option<Seq<char>>,
    pub column_key: Option<Seq<char>>,
    pub extra: Option<Seq<char>>,
    pub comment: Option<Seq<char>>,
}

impl View for ColumnsRow {
    type V = ColumnsRowView;

    open spec fn view(&self) -> ColumnsRowView {
        ColumnsRowView {
            name: opt_text_view(self.name),
            column_type: opt_text_view(self.column_type),
            is_nullable: opt_text_view(self.is_nullable),
            column_default: opt_text_view(self.column_default),
            column_key: opt_text_view(self.column_key),
            extra: opt_text_view(self.extra),
            comment: opt_text_view(self.comment),
        }
    }
}

/// The column details one introspection row describes, when its required
/// fields (name, declared type, nullability) decoded. Primary-key status is
/// the backend's `PRI` marker; auto-increment status is the marker substring
/// in the free-text `EXTRA` column; a missing marker column counts as empty.
pub open spec fn spec_column_details_of_row(row: ColumnsRowView) -> Option<ColumnDetailsView> {
    match (row.name, row.column_type, row.is_nullable) {
        (Some(name), Some(data_type), Some(nullable_text)) => Some(
            ColumnDetailsView {
                name,
                data_type,
                nullable: nullable_text == "YES"@,
                default_value: row.column_default,
                is_primary_key: match row.column_key {
                    Some(k) => k == "PRI"@,
                    None => false,
                },
                is_auto_increment: match row.extra {
                    Some(e) => text::contains_seq(e, "auto_increment"@),
                    None => false,
                },
                comment: row.comment,
            },
        ),
        _ => None,
    }
}

/// The column sequence an introspection result describes: one entry per row
/// whose required fields decoded, in the backend's ordinal order.
pub open spec fn spec_column_details(rows: Seq<ColumnsRowView>) -> Seq<ColumnDetailsView>
    decreases rows.len(),
{
    if rows.len() == 0 {
        Seq::empty()
    } else {
        let init = spec_column_details(rows.drop_last());
        match spec_column_details_of_row(rows.last()) {
            Some(c) => init.push(c),
            None => init,
        }
    }
}

/// Introspection parsing is deterministic: equal introspection row sequences
/// always describe equal column sequences, in the same ordinal order. So two
/// description queries between which the backend reports the same rows (no
/// intervening schema change) yield the same column sequence.
pub proof fn lemma_column_parse_deterministic(a: Seq<ColumnsRowView>, b: Seq<ColumnsRowView>)
    requires
        a == b,
    ensures
        spec_column_details(a) == spec_column_details(b),
{
}

/// Parses one introspection row into column details.
pub fn column_details_from_row(row: ColumnsRow) -> (r: Option<ColumnDetails>)
    ensures
        opt_column_view(r) == spec_column_details_of_row(row@),
{
    let name = match row.name {
        Some(n) => n,
        None => {
            return None;
        },
    };
    let data_type = match row.column_type {
        Some(t) => t,
        None => {
            return None;
        },
    };
    let nullable_text = match row.is_nullable {
        Some(s) => s,
        None => {
            return None;
        },
    };
    let nullable = text::str_eq(nullable_text.as_str(), "YES");
    let is_primary_key = match &row.column_key {
        Some(k) => text::str_eq(k.as_str(), "PRI"),
        None => false,
    };
    let is_auto_increment = match &row.extra {
        Some(e) => text::str_contains(e.as_str(), "auto_increment"),
        None => false,
    };
    Some(
        ColumnDetails {
            name,
            data_type,
            nullable,
            default_value: row.column_default,
            is_primary_key,
            is_auto_increment,
            comment: row.comment,
        },
    )
}

/// The view of an optional column-details value.
pub open spec fn opt_column_view(o: Option<ColumnDetails>) -> Option<ColumnDetailsView> {
    match o {
        Some(c) => Some(c@),
        None => None,
    }
}

/// Parses the introspection rows into the described column sequence.
pub fn column_details_from_rows(rows: Vec<ColumnsRow>) -> (r: Vec<ColumnDetails>)
    ensures
        r@.map_values(|c: ColumnDetails| c@) == spec_column_details(
            rows@.map_values(|x: ColumnsRow| x@),
        ),
{
    let ghost rows_seq = rows@;
    let mut rest = rows;
    let mut r: Vec<ColumnDetails> = Vec::new();
    let n = rest.len();
    let mut i: usize = 0;
    while i < n
        invariant
            n == rows_seq.len(),
            i <= n,
            rest@ == rows_seq.subrange(i as int, n as int),
            r@.map_values(|c: ColumnDetails| c@) == spec_column_details(
                rows_seq.subrange(0, i as int).map_values(|x: ColumnsRow| x@),
            ),
        decreases n - i,
    {
        let ghost prefix = rows_seq.subrange(0, i as int).map_values(|x: ColumnsRow| x@);
        let row = rest.remove(0);
        match column_details_from_row(row) {
            Some(c) => {
                r.push(c);
            },
            None => {},
        }
        i += 1;
        proof {
            let next = rows_seq.subrange(0, i as int).map_values(|x: ColumnsRow| x@);
            assert(next =~= prefix.push(rows_seq[i - 1]@));
            assert(next.drop_last() =~= prefix);
        }
    }
    proof {
        assert(rows_seq.subrange(0, n as int) =~= rows_seq);
    }
    r
}

/// The detail text of a description that found no such table.
pub open spec fn spec_unknown_table_text(database: Seq<char>, table: Seq<char>) -> Seq<char> {
    "Unknown table '"@ + database + "."@ + table + "'"@
}

/// Decides the outcome of one table description from the introspection rows
/// the backend returned: an introspection result with no rows means the
/// table does not exist, which fails as `QueryFailed`; otherwise the table's
/// description is assembled from the rows.
pub fn describe_table_outcome(database: &str, table: &str, rows: Vec<ColumnsRow>) -> (r: Result<
    TableInfo,
    DatabaseError,
>)
    ensures
        rows@.len() == 0 ==> (r matches Err(DatabaseError::QueryFailed(m)) && m@
            == spec_unknown_table_text(database@, table@)),
        rows@.len() > 0 ==> (r matches Ok(info) && {
            &&& info@.name == table@
            &&& info@.database == database@
            &&& info@.engine is None
            &&& info@.row_count is None
            &&& info@.data_size is None
            &&& info@.columns == spec_column_details(rows@.map_values(|x: ColumnsRow| x@))
        }),
{
    if rows.len() == 0 {
        let mut m = "Unknown table '".to_owned();
        m.append(database);
        m.append(".");
        m.append(table);
        m.append("'");
        return Err(DatabaseError::QueryFailed(m));
    }
    Ok(describe_table_info(database, table, rows))
}

/// Assembles the description of one table: the parsed, ordinal-ordered
/// column details under the table's identity; the listing-only estimates
/// stay unreported.
pub fn describe_table_info(database: &str, table: &str, rows: Vec<ColumnsRow>) -> (r: TableInfo)
    ensures
        r@.name == table@,
        r@.database == database@,
        r@.engine is None,
        r@.row_count is None,
        r@.data_size is None,
        r@.columns == spec_column_details(rows@.map_values(|x: ColumnsRow| x@)),
{
    let columns = column_details_from_rows(rows);
    TableInfo {
        name: table.to_owned(),
        database: database.to_owned(),
        engine: None,
        row_count: None,
        data_size: None,
        columns,
    }
}

} // verus!
