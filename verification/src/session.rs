//! The caller's session state and the decisions its tick loop applies when
//! bridge operations start or resolve. The functions here are pure state
//! transitions: the caller performs the spawning, awaiting and I/O, then
//! hands each operation's outcome in as a plain value. Where a transition
//! requires a follow-up operation (loading databases after a connect, or
//! tables and views after a lone database appears), it says so in its
//! result and the caller starts that operation on the bridge.

use vstd::prelude::*;
use crate::db::{DatabaseInfo, DatabaseInfoView, TableInfo, ViewInfo};
use crate::models::connection::{ConnectionConfig, ConnectionState};
use crate::models::query::QueryResult;
use crate::store::KeyedStore;
use crate::text;

verus! {

/// Which surface the caller is showing.
#[derive(Debug, Clone, PartialEq, Eq, Structural)]
pub enum ViewState {
    Welcome,
    ConnectionForm,
    Connected,
}

impl Default for ViewState {
    fn default() -> (r: Self)
        ensures
            r == ViewState::Welcome,
    {
        ViewState::Welcome
    }
}

/// The schema the session has learned so far: the database list, and per
/// database the tables and views, written whole under the database's name as
/// each listing resolves (last write wins per key), so listings that resolve
/// out of order cannot clobber unrelated databases.
#[derive(Debug)]
pub struct SchemaBrowser {
    pub databases: Vec<DatabaseInfo>,
    pub tables: KeyedStore<Vec<TableInfo>>,
    pub views: KeyedStore<Vec<ViewInfo>>,
    pub expanded_databases: KeyedStore<()>,
    pub selected_database: Option<String>,
    pub selected_table: Option<(String, String)>,
    pub is_loading: bool,
}

impl SchemaBrowser {
    pub fn new() -> (r: Self)
        ensures
            r.databases@.len() == 0,
            forall|k: Seq<char>| r.tables.spec_get(k) is None,
            forall|k: Seq<char>| r.views.spec_get(k) is None,
            forall|k: Seq<char>| r.expanded_databases.spec_get(k) is None,
            r.selected_database is None,
            r.selected_table is None,
            !r.is_loading,
    {
        SchemaBrowser {
            databases: Vec::new(),
            tables: KeyedStore::new(),
            views: KeyedStore::new(),
            expanded_databases: KeyedStore::new(),
            selected_database: None,
            selected_table: None,
            is_loading: false,
        }
    }
}

/// The databases a resolved listing leaves visible: all of them, unless the
/// active configuration names a target database, in which case only the
/// entries bearing that name.
pub open spec fn spec_filtered_databases(dbs: Seq<DatabaseInfoView>, sel: Seq<char>) -> Seq<
    DatabaseInfoView,
>
    decreases dbs.len(),
{
    if dbs.len() == 0 {
        Seq::empty()
    } else {
        let init = spec_filtered_databases(dbs.drop_last(), sel);
        if dbs.last().name == sel {
            init.push(dbs.last())
        } else {
            init
        }
    }
}

/// The visible database list for a configuration: filtered when the active
/// configuration names a non-empty target database, whole otherwise.
pub open spec fn spec_visible_databases(
    dbs: Seq<DatabaseInfoView>,
    config: Option<ConnectionConfig>,
) -> Seq<DatabaseInfoView> {
    match config {
        Some(c) => if c.database@.len() > 0 {
            spec_filtered_databases(dbs, c.database@)
        } else {
            dbs
        },
        None => dbs,
    }
}

/// One session: connection lifecycle, known connections, learned schema, and
/// the latest query outcome, as the tick loop maintains them.
#[derive(Debug)]
pub struct Session {
    pub connection_state: ConnectionState,
    pub view_state: ViewState,
    pub connections: Vec<ConnectionConfig>,
    pub connection_config: Option<ConnectionConfig>,
    pub browser: SchemaBrowser,
    pub form_testing: bool,
    pub form_test_result: Option<Result<(), String>>,
    pub query_executing: bool,
    pub query_result: Option<QueryResult>,
    pub result_error: Option<String>,
}

impl Session {
    pub fn new() -> (r: Self)
        ensures
            r.connection_state is Disconnected,
            r.view_state is Welcome,
            r.connections@.len() == 0,
            r.connection_config is None,
            !r.browser.is_loading,
            !r.form_testing,
            r.form_test_result is None,
            !r.query_executing,
            r.query_result is None,
            r.result_error is None,
    {
        Session {
            connection_state: ConnectionState::Disconnected,
            view_state: ViewState::Welcome,
            connections: Vec::new(),
            connection_config: None,
            browser: SchemaBrowser::new(),
            form_testing: false,
            form_test_result: None,
            query_executing: false,
            query_result: None,
            result_error: None,
        }
    }

    /// The caller is about to start a connect operation with `config`: the
    /// configuration joins the known list and becomes active, and the
    /// session shows a connection in progress.
    pub fn start_connect(&mut self, config: ConnectionConfig)
        ensures
            final(self).connections@ == old(self).connections@.push(config),
            final(self).connection_config == Some(config),
            final(self).connection_state is Connecting,
            *final(self) == (Session {
                connections: final(self).connections,
                connection_config: final(self).connection_config,
                connection_state: ConnectionState::Connecting,
                ..*old(self)
            }),
    {
        self.connections.push(config.clone());
        self.connection_config = Some(config);
        self.connection_state = ConnectionState::Connecting;
    }

    /// The connect operation resolved. On success the session is connected
    /// and the caller must start the database listing (the returned flag);
    /// on failure the error is surfaced to the form.
    pub fn on_connection_resolved(&mut self, outcome: Result<(), String>) -> (start_databases:
        bool)
        ensures
            outcome is Ok ==> start_databases && *final(self) == (Session {
                connection_state: ConnectionState::Connected,
                view_state: ViewState::Connected,
                browser: (SchemaBrowser { is_loading: true, ..old(self).browser }),
                ..*old(self)
            }),
            outcome matches Err(e) ==> !start_databases && *final(self) == (Session {
                connection_state: ConnectionState::Error,
                form_test_result: Some(Err(e)),
                ..*old(self)
            }),
    {
        match outcome {
            Ok(()) => {
                self.connection_state = ConnectionState::Connected;
                self.view_state = ViewState::Connected;
                self.browser.is_loading = true;
                true
            },
            Err(e) => {
                self.connection_state = ConnectionState::Error;
                self.form_test_result = Some(Err(e));
                false
            },
        }
    }

    /// The caller is about to start a test-connection operation.
    pub fn start_test_connection(&mut self)
        ensures
            *final(self) == (Session {
                form_testing: true,
                form_test_result: None,
                ..*old(self)
            }),
    {
        self.form_testing = true;
        self.form_test_result = None;
    }

    /// The test-connection operation resolved.
    pub fn on_test_resolved(&mut self, result: Result<(), String>)
        ensures
            *final(self) == (Session {
                form_testing: false,
                form_test_result: Some(result),
                ..*old(self)
            }),
    {
        self.form_testing = false;
        self.form_test_result = Some(result);
    }

    /// The database listing resolved. On success the visible list replaces
    /// the old one; when exactly one database is visible it is expanded and
    /// selected at once, and the caller must load its tables and views for
    /// the returned name. A failed listing changes nothing but the loading
    /// flag.
    pub fn on_databases_resolved(&mut self, result: Result<Vec<DatabaseInfo>, String>) -> (load_for:
        Option<String>)
        ensures
            result matches Ok(dbs) ==> final(self).browser.databases@.map_values(
                |d: DatabaseInfo| d@,
            ) == spec_visible_databases(
                dbs@.map_values(|d: DatabaseInfo| d@),
                old(self).connection_config,
            ),
            result is Ok ==> (final(self).browser.databases@.len() == 1 ==> {
                let name = final(self).browser.databases@[0].name;
                &&& load_for matches Some(n) && n@ == name@
                &&& final(self).browser.expanded_databases.spec_get(name@) is Some
                &&& final(self).browser.selected_database matches Some(s) && s@ == name@
                &&& final(self).browser.is_loading
            }),
            result is Ok ==> (final(self).browser.databases@.len() != 1 ==> {
                &&& load_for is None
                &&& final(self).browser.expanded_databases == old(self).browser.expanded_databases
                &&& final(self).browser.selected_database == old(
                    self,
                ).browser.selected_database
                &&& !final(self).browser.is_loading
            }),
            result is Err ==> load_for is None && *final(self) == (Session {
                browser: (SchemaBrowser { is_loading: false, ..old(self).browser }),
                ..*old(self)
            }),
            *final(self) == (Session { browser: final(self).browser, ..*old(self) }),
            final(self).browser == (SchemaBrowser {
                databases: final(self).browser.databases,
                expanded_databases: final(self).browser.expanded_databases,
                selected_database: final(self).browser.selected_database,
                is_loading: final(self).browser.is_loading,
                ..old(self).browser
            }),
    {
        self.browser.is_loading = false;
        match result {
            Ok(dbs) => {
                let filtered = self.visible_databases(dbs);
                self.browser.databases = filtered;
                if self.browser.databases.len() == 1 {
                    let name = self.browser.databases[0].name.clone();
                    self.browser.expanded_databases.put(name.clone(), ());
                    self.browser.selected_database = Some(name.clone());
                    self.browser.is_loading = true;
                    Some(name)
                } else {
                    None
                }
            },
            Err(_) => None,
        }
    }

    /// Restricts a freshly listed database sequence to the visible ones for
    /// the active configuration.
    fn visible_databases(&self, dbs: Vec<DatabaseInfo>) -> (r: Vec<DatabaseInfo>)
        ensures
            r@.map_values(|d: DatabaseInfo| d@) == spec_visible_databases(
                dbs@.map_values(|d: DatabaseInfo| d@),
                self.connection_config,
            ),
    {
        let selected: Option<&String> = match &self.connection_config {
            Some(c) => if c.database.as_str().is_empty() {
                None
            } else {
                Some(&c.database)
            },
            None => None,
        };
        match selected {
            None => dbs,
            Some(target) => {
                let ghost dbs_seq = dbs@;
                let mut rest = dbs;
                let mut r: Vec<DatabaseInfo> = Vec::new();
                let n = rest.len();
                let mut i: usize = 0;
                while i < n
                    invariant
                        n == dbs_seq.len(),
                        i <= n,
                        rest@ == dbs_seq.subrange(i as int, n as int),
                        r@.map_values(|d: DatabaseInfo| d@) == spec_filtered_databases(
                            dbs_seq.subrange(0, i as int).map_values(|d: DatabaseInfo| d@),
                            target@,
                        ),
                    decreases n - i,
                {
                    let ghost prefix = dbs_seq.subrange(0, i as int).map_values(
                        |d: DatabaseInfo| d@,
                    );
                    let db = rest.remove(0);
                    if text::str_eq(db.name.as_str(), target.as_str()) {
                        r.push(db);
                    }
                    i += 1;
                    proof {
                        let next = dbs_seq.subrange(0, i as int).map_values(
                            |d: DatabaseInfo| d@,
                        );
                        assert(next =~= prefix.push(dbs_seq[i - 1]@));
                        assert(next.drop_last() =~= prefix);
                    }
                }
                proof {
                    assert(dbs_seq.subrange(0, n as int) =~= dbs_seq);
                }
                r
            },
        }
    }

    /// The caller is about to load tables and views for a database.
    pub fn start_schema_load(&mut self)
        ensures
            *final(self) == (Session {
                browser: (SchemaBrowser { is_loading: true, ..old(self).browser }),
                ..*old(self)
            }),
    {
        self.browser.is_loading = true;
    }

    /// The table listing for `database` resolved: a successful listing is
    /// written whole under that database's name, leaving every other
    /// database's entry untouched; a failed one is dropped.
    pub fn on_tables_resolved(&mut self, database: String, result: Result<Vec<TableInfo>, String>)
        ensures
            result matches Ok(ts) ==> final(self).browser.tables.spec_get(database@) == Some(ts),
            result is Err ==> final(self).browser.tables == old(self).browser.tables,
            forall|k: Seq<char>|
                k != database@ ==> final(self).browser.tables.spec_get(k) == old(
                    self,
                ).browser.tables.spec_get(k),
            *final(self) == (Session {
                browser: (SchemaBrowser {
                    is_loading: false,
                    tables: final(self).browser.tables,
                    ..old(self).browser
                }),
                ..*old(self)
            }),
    {
        self.browser.is_loading = false;
        match result {
            Ok(ts) => {
                self.browser.tables.put(database, ts);
            },
            Err(_) => {},
        }
    }

    /// The view listing for `database` resolved, handled like the tables.
    pub fn on_views_resolved(&mut self, database: String, result: Result<Vec<ViewInfo>, String>)
        ensures
            result matches Ok(vs) ==> final(self).browser.views.spec_get(database@) == Some(vs),
            result is Err ==> final(self).browser.views == old(self).browser.views,
            forall|k: Seq<char>|
                k != database@ ==> final(self).browser.views.spec_get(k) == old(
                    self,
                ).browser.views.spec_get(k),
            *final(self) == (Session {
                browser: (SchemaBrowser {
                    views: final(self).browser.views,
                    ..old(self).browser
                }),
                ..*old(self)
            }),
    {
        match result {
            Ok(vs) => {
                self.browser.views.put(database, vs);
            },
            Err(_) => {},
        }
    }

    /// The caller is about to start a query operation.
    pub fn start_query(&mut self)
        ensures
            *final(self) == (Session { query_executing: true, ..*old(self) }),
    {
        self.query_executing = true;
    }

    /// The query operation resolved: its result and its error display
    /// exclude each other.
    pub fn on_query_resolved(&mut self, result: Result<QueryResult, String>)
        ensures
            result matches Ok(qr) ==> *final(self) == (Session {
                query_executing: false,
                query_result: Some(qr),
                result_error: None,
                ..*old(self)
            }),
            result matches Err(e) ==> *final(self) == (Session {
                query_executing: false,
                query_result: None,
                result_error: Some(e),
                ..*old(self)
            }),
    {
        self.query_executing = false;
        match result {
            Ok(qr) => {
                self.query_result = Some(qr);
                self.result_error = None;
            },
            Err(e) => {
                self.query_result = None;
                self.result_error = Some(e);
            },
        }
    }

    /// The user expanded a database node: it is selected, marked expanded,
    /// and its tables and views must be loaded exactly when no table listing
    /// was stored for it yet (the returned flag; loading begins at once).
    pub fn expand_database(&mut self, name: String) -> (load: bool)
        ensures
            load == (old(self).browser.tables.spec_get(name@) is None),
            final(self).browser.expanded_databases.spec_get(name@) is Some,
            forall|k: Seq<char>|
                k != name@ ==> final(self).browser.expanded_databases.spec_get(k) == old(
                    self,
                ).browser.expanded_databases.spec_get(k),
            final(self).browser.selected_database matches Some(s) && s@ == name@,
            final(self).browser.is_loading == (load || old(self).browser.is_loading),
            *final(self) == (Session {
                browser: (SchemaBrowser {
                    expanded_databases: final(self).browser.expanded_databases,
                    selected_database: final(self).browser.selected_database,
                    is_loading: final(self).browser.is_loading,
                    ..old(self).browser
                }),
                ..*old(self)
            }),
    {
        let load = !self.browser.tables.contains(name.as_str());
        self.browser.expanded_databases.put(name.clone(), ());
        self.browser.selected_database = Some(name);
        if load {
            self.browser.is_loading = true;
        }
        load
    }

    /// The user collapsed a database node.
    pub fn collapse_database(&mut self, name: &str)
        ensures
            final(self).browser.expanded_databases.spec_get(name@) is None,
            forall|k: Seq<char>|
                k != name@ ==> final(self).browser.expanded_databases.spec_get(k) == old(
                    self,
                ).browser.expanded_databases.spec_get(k),
            *final(self) == (Session {
                browser: (SchemaBrowser {
                    expanded_databases: final(self).browser.expanded_databases,
                    ..old(self).browser
                }),
                ..*old(self)
            }),
    {
        self.browser.expanded_databases.remove(name);
    }

    /// The user deleted a known connection from the list.
    pub fn remove_connection_at(&mut self, index: usize)
        requires
            index < old(self).connections@.len(),
        ensures
            final(self).connections@ == old(self).connections@.remove(index as int),
            *final(self) == (Session { connections: final(self).connections, ..*old(self) }),
    {
        self.connections.remove(index);
    }

    /// The user selected a table in the schema tree.
    pub fn select_table(&mut self, database: String, table: String)
        ensures
            *final(self) == (Session {
                browser: (SchemaBrowser {
                    selected_table: Some((database, table)),
                    ..old(self).browser
                }),
                ..*old(self)
            }),
    {
        self.browser.selected_table = Some((database, table));
    }
}

} // verus!
