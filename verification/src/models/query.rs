use vstd::prelude::*;
use vstd::string::StringExecFns;
use crate::ext;
use crate::text;

verus! {

/// One cell of a result set. Exactly one backend-native column type class
/// maps to each variant; a cell whose raw value cannot be coerced into its
/// mapped variant degrades to `Null` so that row materialization stays total.
///
/// A 64-bit floating-point cell is carried as the raw IEEE 754 bit pattern of
/// the value; callers that render or compute with it reconstruct the float
/// outside this library.
#[derive(Debug, Clone)]
pub enum CellValue {
    Null,
    Bool(bool),
    Int(i64),
    Float(u64),
    String(String),
    Bytes(Vec<u8>),
    DateTime(String),
    Json(String),
}

impl vstd::std_specs::cmp::PartialEqSpecImpl for CellValue {
    open spec fn obeys_eq_spec() -> bool {
        true
    }

    open spec fn eq_spec(&self, other: &CellValue) -> bool {
        match (self, other) {
            (CellValue::Null, CellValue::Null) => true,
            (CellValue::Bool(a), CellValue::Bool(b)) => a == b,
            (CellValue::Int(a), CellValue::Int(b)) => a == b,
            (CellValue::Float(a), CellValue::Float(b)) => a == b,
            (CellValue::String(a), CellValue::String(b)) => a@ == b@,
            (CellValue::Bytes(a), CellValue::Bytes(b)) => a@ == b@,
            (CellValue::DateTime(a), CellValue::DateTime(b)) => a@ == b@,
            (CellValue::Json(a), CellValue::Json(b)) => a@ == b@,
            _ => false,
        }
    }
}

impl PartialEq for CellValue {
    fn eq(&self, other: &CellValue) -> (r: bool) {
        match (self, other) {
            (CellValue::Null, CellValue::Null) => true,
            (CellValue::Bool(a), CellValue::Bool(b)) => *a == *b,
            (CellValue::Int(a), CellValue::Int(b)) => *a == *b,
            (CellValue::Float(a), CellValue::Float(b)) => *a == *b,
            (CellValue::String(a), CellValue::String(b)) => *a == *b,
            (CellValue::Bytes(a), CellValue::Bytes(b)) => {
                let r = *a == *b;
                proof {
                    if r {
                        assert(a@ =~= b@);
                    } else {
                        if a@ == b@ {
                            assert(a@.len() == b@.len());
                            assert(forall|i: int| #![auto] 0 <= i < a@.len() ==> a@[i] == b@[i]);
                        }
                    }
                }
                r
            },
            (CellValue::DateTime(a), CellValue::DateTime(b)) => *a == *b,
            (CellValue::Json(a), CellValue::Json(b)) => *a == *b,
            _ => false,
        }
    }
}

impl CellValue {
    /// The rendering a results grid shows for one cell. Bytes are summarized
    /// by their count rather than dumped. A floating-point cell is rendered
    /// outside this library, from the bit pattern the variant carries.
    pub open spec fn spec_display(self) -> Seq<char>
        recommends
            !(self is Float),
    {
        match self {
            CellValue::Null => "NULL"@,
            CellValue::Bool(b) => if b {
                "true"@
            } else {
                "false"@
            },
            CellValue::Int(i) => text::spec_i64_text(i),
            CellValue::Float(_) => Seq::empty(),
            CellValue::String(s) => s@,
            CellValue::Bytes(b) => "<"@ + text::spec_u64_text(b@.len()) + " bytes>"@,
            CellValue::DateTime(s) => s@,
            CellValue::Json(s) => s@,
        }
    }

    pub fn display_string(&self) -> (r: String)
        requires
            !(self is Float),
        ensures
            r@ == self.spec_display(),
    {
        match self {
            CellValue::Null => "NULL".to_owned(),
            CellValue::Bool(b) => if *b {
                "true".to_owned()
            } else {
                "false".to_owned()
            },
            CellValue::Int(i) => text::i64_text(*i),
            CellValue::Float(_) => String::new(),
            CellValue::String(s) => s.clone(),
            CellValue::Bytes(b) => {
                let mut r = "<".to_owned();
                let count = text::u64_text(b.len() as u64);
                r.append(count.as_str());
                r.append(" bytes>");
                r
            },
            CellValue::DateTime(s) => s.clone(),
            CellValue::Json(s) => s.clone(),
        }
    }
}

/// A query the user chose to keep, with its creation and last-edit instants
/// in RFC 3339 text.
#[derive(Debug, Clone)]
pub struct SavedQuery {
    pub id: u128,
    pub name: String,
    pub sql: String,
    pub connection_id: Option<u128>,
    pub created_at: String,
    pub updated_at: String,
}

impl SavedQuery {
    /// A freshly saved query: a new identity, unattached to any connection,
    /// with its two instants equal.
    pub fn new(name: String, sql: String) -> (r: SavedQuery)
        ensures
            r.name == name,
            r.sql == sql,
            r.connection_id is None,
            r.created_at == r.updated_at,
    {
        let now = ext::now_rfc3339();
        SavedQuery {
            id: ext::fresh_id(),
            name,
            sql,
            connection_id: None,
            created_at: now.clone(),
            updated_at: now,
        }
    }
}

impl Default for SavedQuery {
    fn default() -> (r: Self)
        ensures
            r.name@ == "Untitled Query"@,
            r.sql@ == Seq::<char>::empty(),
            r.connection_id is None,
            r.created_at == r.updated_at,
    {
        SavedQuery::new("Untitled Query".to_owned(), String::new())
    }
}

/// Column metadata attached to a query result. Nullability and primary-key
/// flags are best-effort: when the backend cannot report them inline with a
/// result set they default to the permissive `nullable = true`,
/// `is_primary_key = false`.
#[derive(Debug, Clone)]
pub struct ColumnInfo {
    pub name: String,
    pub data_type: String,
    pub nullable: bool,
    pub is_primary_key: bool,
}

/// The outcome of one executed statement: either a result set (columns and
/// positionally aligned rows) or an affected-row count, never both.
#[derive(Debug, Clone)]
pub struct QueryResult {
    pub columns: Vec<ColumnInfo>,
    pub rows: Vec<Vec<CellValue>>,
    pub affected_rows: Option<u64>,
    pub execution_time_ms: u64,
}

impl QueryResult {
    /// The structural invariant of a result: every row is aligned with the
    /// column sequence, and an affected-row count excludes a result set.
    pub open spec fn well_formed(self) -> bool {
        &&& forall|i: int| 0 <= i < self.rows@.len() ==> #[trigger] self.rows@[i]@.len() == self.columns@.len()
        &&& self.affected_rows is Some ==> self.columns@.len() == 0 && self.rows@.len() == 0
    }

    /// An empty result, as a statement that produced nothing reports it.
    pub fn empty(execution_time_ms: u64) -> (r: QueryResult)
        ensures
            r.well_formed(),
            r.columns@.len() == 0,
            r.rows@.len() == 0,
            r.affected_rows is None,
            r.execution_time_ms == execution_time_ms,
    {
        QueryResult {
            columns: Vec::new(),
            rows: Vec::new(),
            affected_rows: None,
            execution_time_ms,
        }
    }

    /// The outcome of a side-effecting statement: an affected-row count and
    /// no result set.
    pub fn statement_outcome(affected: u64, execution_time_ms: u64) -> (r: QueryResult)
        ensures
            r.well_formed(),
            r.columns@.len() == 0,
            r.rows@.len() == 0,
            r.affected_rows == Some(affected),
            r.execution_time_ms == execution_time_ms,
    {
        QueryResult {
            columns: Vec::new(),
            rows: Vec::new(),
            affected_rows: Some(affected),
            execution_time_ms,
        }
    }
}

impl Default for QueryResult {
    fn default() -> (r: Self)
        ensures
            r.well_formed(),
            r.columns@.len() == 0,
            r.rows@.len() == 0,
            r.affected_rows is None,
            r.execution_time_ms == 0,
    {
        QueryResult::empty(0)
    }
}

} // verus!
