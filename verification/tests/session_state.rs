use nebula::bridge::{ConnectionLock, OpOutcome, SlotPoll, TaskBridge, TaskSlot};
use nebula::config::{AppConfig, ConfigError, StoredConnection};
use nebula::models::connection::{ConnectionConfig, ConnectionState, DatabaseType};
use nebula::models::query::{QueryResult, SavedQuery};
use nebula::session::{Session, ViewState};
use nebula::store::KeyedStore;
use nebula::text::{i64_text, parse_u16, parse_u64, str_contains, u64_text};
use nebula::ui_state::{ConnectionForm, ConnectionFormMessage, QueryEditor, ResultsTable, TabBar};
use nebula::db::{DatabaseInfo, TableInfo, ViewInfo};

#[test]
fn test_default_config() {
    let config = AppConfig::default();
    assert!(config.mysql.is_empty());
    assert!(config.postgres.is_empty());
    assert!(config.nebula.last_connection.is_none());
}

#[test]
fn slot_resolves_exactly_once() {
    let mut slot: TaskSlot<u32> = TaskSlot::new();
    assert!(matches!(slot.poll(), SlotPoll::Empty));

    slot.start();
    assert!(matches!(slot.poll(), SlotPoll::StillPending));
    assert!(matches!(slot.poll(), SlotPoll::StillPending));

    slot.complete(OpOutcome::Fulfilled(7));
    match slot.poll() {
        SlotPoll::Ready(OpOutcome::Fulfilled(v)) => assert_eq!(v, 7),
        _ => panic!("expected the terminal value"),
    }
    // The terminal value was consumed: the slot is idle again, never
    // reporting the same result twice.
    assert!(matches!(slot.poll(), SlotPoll::Empty));
    assert!(matches!(slot.poll(), SlotPoll::Empty));
}

#[test]
fn failed_operation_resolves_once_with_its_text() {
    let mut slot: TaskSlot<()> = TaskSlot::new();
    slot.start();
    slot.complete(OpOutcome::Failed("no route to host".to_string()));
    match slot.poll() {
        SlotPoll::Ready(OpOutcome::Failed(e)) => assert_eq!(e, "no route to host"),
        _ => panic!("expected the failure"),
    }
    assert!(matches!(slot.poll(), SlotPoll::Empty));
}

#[test]
fn superseded_start_discards_nothing_new() {
    let mut slot: TaskSlot<u32> = TaskSlot::new();
    slot.start();
    slot.start();
    assert!(matches!(slot.poll(), SlotPoll::StillPending));
}

#[test]
fn lock_serializes_operations() {
    let mut lock = ConnectionLock::new();
    assert!(lock.try_acquire(1));
    // While operation 1 is inside its transport call, operation 2 must wait.
    assert!(!lock.try_acquire(2));
    assert!(!lock.try_acquire(2));
    lock.release(1);
    assert!(lock.try_acquire(2));
    lock.release(2);
}

#[test]
fn bridge_reports_outstanding_work() {
    let mut bridge: TaskBridge<u8> = TaskBridge::new();
    assert!(!bridge.any_pending());
    bridge.query.start();
    assert!(bridge.any_pending());
    bridge.query.complete(OpOutcome::Fulfilled(QueryResult::statement_outcome(0, 0)));
    assert!(!bridge.any_pending());
    assert!(matches!(bridge.query.poll(), SlotPoll::Ready(_)));
}

#[test]
fn keyed_store_is_last_write_wins() {
    let mut store: KeyedStore<u32> = KeyedStore::new();
    assert!(store.get("a").is_none());
    store.put("a".to_string(), 1);
    store.put("b".to_string(), 2);
    assert_eq!(store.get("a"), Some(&1));
    assert_eq!(store.get("b"), Some(&2));
    store.put("a".to_string(), 3);
    assert_eq!(store.get("a"), Some(&3));
    assert_eq!(store.get("b"), Some(&2));
    store.remove("a");
    assert!(store.get("a").is_none());
    assert_eq!(store.get("b"), Some(&2));
    assert!(store.contains("b"));
    assert!(!store.contains("a"));
}

fn db(name: &str) -> DatabaseInfo {
    DatabaseInfo { name: name.to_string(), character_set: None, collation: None }
}

fn table(name: &str, database: &str) -> TableInfo {
    TableInfo {
        name: name.to_string(),
        database: database.to_string(),
        engine: None,
        row_count: None,
        data_size: None,
        columns: Vec::new(),
    }
}

fn config_for(database: &str) -> ConnectionConfig {
    ConnectionConfig {
        id: 1,
        name: "c".to_string(),
        db_type: DatabaseType::MySQL,
        host: "h".to_string(),
        port: 3306,
        username: "u".to_string(),
        password: "p".to_string(),
        database: database.to_string(),
        ssl_enabled: false,
        color: None,
    }
}

#[test]
fn connect_flow_reaches_connected_state() {
    let mut session = Session::new();
    session.start_connect(config_for(""));
    assert!(matches!(session.connection_state, ConnectionState::Connecting));
    assert_eq!(session.connections.len(), 1);

    let start_databases = session.on_connection_resolved(Ok(()));
    assert!(start_databases);
    assert!(matches!(session.connection_state, ConnectionState::Connected));
    assert!(matches!(session.view_state, ViewState::Connected));
    assert!(session.browser.is_loading);
}

#[test]
fn failed_connect_surfaces_the_error() {
    let mut session = Session::new();
    session.start_connect(config_for(""));
    let start_databases = session.on_connection_resolved(Err("refused".to_string()));
    assert!(!start_databases);
    assert!(matches!(session.connection_state, ConnectionState::Error));
    assert_eq!(session.form_test_result, Some(Err("refused".to_string())));
}

#[test]
fn configured_database_filters_the_listing() {
    let mut session = Session::new();
    session.start_connect(config_for("mydb"));
    assert!(session.on_connection_resolved(Ok(())));
    let load_for = session.on_databases_resolved(Ok(vec![db("mydb"), db("other"), db("mydb")]));
    // Both entries named mydb stay, so no lone database is auto-selected.
    assert_eq!(session.browser.databases.len(), 2);
    assert!(load_for.is_none());
}

#[test]
fn lone_database_is_expanded_and_loaded() {
    let mut session = Session::new();
    session.start_connect(config_for("mydb"));
    session.on_connection_resolved(Ok(()));
    let load_for = session.on_databases_resolved(Ok(vec![db("mydb"), db("other")]));
    assert_eq!(session.browser.databases.len(), 1);
    assert_eq!(load_for.as_deref(), Some("mydb"));
    assert_eq!(session.browser.selected_database.as_deref(), Some("mydb"));
    assert!(session.browser.is_loading);

    session.on_tables_resolved("mydb".to_string(), Ok(vec![table("t", "mydb")]));
    assert!(!session.browser.is_loading);
    assert_eq!(session.browser.tables.get("mydb").unwrap().len(), 1);
}

#[test]
fn failed_listing_is_dropped() {
    let mut session = Session::new();
    session.start_connect(config_for(""));
    session.on_connection_resolved(Ok(()));
    let load_for = session.on_databases_resolved(Err("timeout".to_string()));
    assert!(load_for.is_none());
    assert!(session.browser.databases.is_empty());
    assert!(!session.browser.is_loading);

    session.on_tables_resolved("d".to_string(), Err("gone".to_string()));
    assert!(session.browser.tables.get("d").is_none());
}

#[test]
fn schema_cache_merges_by_database_name() {
    let mut session = Session::new();
    session.on_tables_resolved("a".to_string(), Ok(vec![table("t1", "a")]));
    session.on_views_resolved(
        "b".to_string(),
        Ok(vec![ViewInfo { name: "v".to_string(), database: "b".to_string(), definition: None }]),
    );
    // A late table listing for `a` overwrites `a` alone; `b` keeps its views.
    session.on_tables_resolved("a".to_string(), Ok(vec![table("t2", "a"), table("t3", "a")]));
    assert_eq!(session.browser.tables.get("a").unwrap().len(), 2);
    assert!(session.browser.views.get("b").is_some());
    assert!(session.browser.tables.get("b").is_none());
}

#[test]
fn query_outcome_replaces_the_previous_one() {
    let mut session = Session::new();
    session.start_query();
    assert!(session.query_executing);
    session.on_query_resolved(Ok(QueryResult::statement_outcome(2, 1)));
    assert!(!session.query_executing);
    assert_eq!(session.query_result.as_ref().unwrap().affected_rows, Some(2));
    assert!(session.result_error.is_none());

    session.start_query();
    session.on_query_resolved(Err("bad sql".to_string()));
    assert!(session.query_result.is_none());
    assert_eq!(session.result_error.as_deref(), Some("bad sql"));
}

#[test]
fn expanding_loads_each_database_once() {
    let mut session = Session::new();
    let load = session.expand_database("d".to_string());
    assert!(load);
    assert!(session.browser.is_loading);
    session.on_tables_resolved("d".to_string(), Ok(vec![]));
    session.collapse_database("d");
    let load_again = session.expand_database("d".to_string());
    assert!(!load_again);
}

#[test]
fn deleting_a_connection_shrinks_the_list() {
    let mut session = Session::new();
    session.start_connect(config_for("a"));
    let mut second = config_for("b");
    second.name = "other".to_string();
    session.start_connect(second);
    assert_eq!(session.connections.len(), 2);
    session.remove_connection_at(0);
    assert_eq!(session.connections.len(), 1);
    assert_eq!(session.connections[0].database, "b");
}

#[test]
fn test_and_form_flow() {
    let mut session = Session::new();
    session.start_test_connection();
    assert!(session.form_testing);
    assert!(session.form_test_result.is_none());
    session.on_test_resolved(Ok(()));
    assert!(!session.form_testing);
    assert_eq!(session.form_test_result, Some(Ok(())));
}

#[test]
fn form_updates_apply_edits() {
    let mut form = ConnectionForm::new();
    assert!(matches!(form.config.db_type, DatabaseType::MySQL));
    assert_eq!(form.config.port, 3306);

    form.update(ConnectionFormMessage::NameChanged("prod".to_string()));
    assert_eq!(form.config.name, "prod");
    form.update(ConnectionFormMessage::DatabaseTypeChanged(DatabaseType::PostgreSQL));
    assert_eq!(form.config.port, 5432);
    form.update(ConnectionFormMessage::HostChanged("db.example.com".to_string()));
    assert_eq!(form.config.host, "db.example.com");
    form.update(ConnectionFormMessage::PortChanged("6543".to_string()));
    assert_eq!(form.config.port, 6543);
    form.update(ConnectionFormMessage::PortChanged("not a port".to_string()));
    assert_eq!(form.config.port, 6543);
    form.update(ConnectionFormMessage::PortChanged("70000".to_string()));
    assert_eq!(form.config.port, 6543);
    form.update(ConnectionFormMessage::SslToggled(true));
    assert!(form.config.ssl_enabled);
    form.update(ConnectionFormMessage::TestConnection);
    assert_eq!(form.config.host, "db.example.com");
}

#[test]
fn default_ports_and_labels() {
    assert_eq!(DatabaseType::MySQL.default_port(), 3306);
    assert_eq!(DatabaseType::PostgreSQL.default_port(), 5432);
    assert_eq!(DatabaseType::SQLite.default_port(), 0);
    assert_eq!(DatabaseType::MongoDB.default_port(), 27017);
    assert_eq!(DatabaseType::MySQL.display_name(), "MySQL");
    assert_eq!(DatabaseType::PostgreSQL.display_name(), "PostgreSQL");
    assert_eq!(DatabaseType::SQLite.display_name(), "SQLite");
    assert_eq!(DatabaseType::MongoDB.display_name(), "MongoDB");
    assert!(!DatabaseType::MySQL.icon().is_empty());
}

#[test]
fn app_config_round_trips_connections() {
    let mut config = AppConfig::default();
    let mut conn = config_for("mydb");
    conn.name = "primary".to_string();
    config.save_connection(&conn);
    assert_eq!(config.mysql.len(), 1);

    let listed = config.get_connections();
    assert_eq!(listed.len(), 1);
    assert_eq!(listed[0].name, "primary");
    assert_eq!(listed[0].host, "h");
    assert_eq!(listed[0].port, 3306);
    assert_eq!(listed[0].database, "mydb");

    // Saving under the same name overwrites: last write wins.
    let mut newer = config_for("otherdb");
    newer.name = "primary".to_string();
    config.save_connection(&newer);
    let listed = config.get_connections();
    assert_eq!(listed.len(), 1);
    assert_eq!(listed[0].database, "otherdb");

    config.remove_connection("primary", DatabaseType::MySQL);
    assert!(config.get_connections().is_empty());
}

#[test]
fn sqlite_connections_store_a_file_path() {
    let mut config = AppConfig::default();
    let mut conn = config_for("/data/app.db");
    conn.db_type = DatabaseType::SQLite;
    conn.name = "local".to_string();
    config.save_connection(&conn);
    let listed = config.get_connections();
    assert_eq!(listed.len(), 1);
    assert_eq!(listed[0].database, "/data/app.db");
    assert!(matches!(listed[0].db_type, DatabaseType::SQLite));
}

#[test]
fn stored_records_fall_back_to_key_and_default_port() {
    let mut config = AppConfig::default();
    let stored = StoredConnection {
        name: String::new(),
        host: "db".to_string(),
        port: None,
        username: "u".to_string(),
        password: "p".to_string(),
        database: "x".to_string(),
        ssl_enabled: true,
        color: None,
        file: None,
    };
    config.postgres.put("fallback".to_string(), stored);
    let listed = config.get_connections();
    assert_eq!(listed.len(), 1);
    assert_eq!(listed[0].name, "fallback");
    assert_eq!(listed[0].port, 5432);
    assert!(listed[0].ssl_enabled);
}

#[test]
fn last_connection_is_recorded() {
    let mut config = AppConfig::default();
    config.set_last_connection("mysql.default");
    assert_eq!(config.nebula.last_connection.as_deref(), Some("mysql.default"));
}

#[test]
fn config_path_is_under_the_home_config_dir() {
    match AppConfig::config_path() {
        Ok(p) => assert!(p.ends_with("/.config/nebula/config.toml")),
        Err(e) => assert!(matches!(e, ConfigError::ConfigDirNotFound)),
    }
    assert_eq!(
        ConfigError::ParseError("eof".to_string()).display_text(),
        "Failed to parse config file: eof"
    );
    assert_eq!(
        ConfigError::ConfigDirNotFound.display_text(),
        "Config directory not found"
    );
}

#[test]
fn number_text_and_parsing() {
    assert_eq!(u64_text(0), "0");
    assert_eq!(u64_text(42), "42");
    assert_eq!(u64_text(u64::MAX), "18446744073709551615");
    assert_eq!(i64_text(-42), "-42");
    assert_eq!(i64_text(i64::MIN), "-9223372036854775808");
    assert_eq!(parse_u64("18446744073709551615"), Some(u64::MAX));
    assert_eq!(parse_u64("18446744073709551616"), None);
    assert_eq!(parse_u64("+80"), Some(80));
    assert_eq!(parse_u64(""), None);
    assert_eq!(parse_u64("+"), None);
    assert_eq!(parse_u64("-1"), None);
    assert_eq!(parse_u64("12a"), None);
    assert_eq!(parse_u16("65535"), Some(65535));
    assert_eq!(parse_u16("65536"), None);
    assert_eq!(parse_u16("0"), Some(0));
}

#[test]
fn substring_search() {
    assert!(str_contains("DEFAULT_GENERATED auto_increment", "auto_increment"));
    assert!(str_contains("abc", ""));
    assert!(!str_contains("", "a"));
    assert!(!str_contains("auto increment", "auto_increment"));
    assert!(str_contains("xyz", "xyz"));
}

#[test]
fn editor_and_results_state() {
    let editor = QueryEditor::new();
    assert!(editor.content.is_empty());
    assert!(!editor.is_executing);
    let editor = QueryEditor::with_content("SELECT 1".to_string());
    assert_eq!(editor.content, "SELECT 1");

    let table = ResultsTable::new();
    assert!(table.result.is_none());
    assert_eq!(table.page_size, 100);
    let table = ResultsTable::with_result(QueryResult::statement_outcome(3, 0));
    assert_eq!(table.result.unwrap().affected_rows, Some(3));
    let table = ResultsTable::with_error("oops".to_string());
    assert_eq!(table.error.as_deref(), Some("oops"));
}

#[test]
fn tab_bar_tracks_the_active_tab() {
    let mut bar = TabBar::new();
    let a = bar.add_tab("one".to_string());
    let b = bar.add_tab("two".to_string());
    let c = bar.add_tab("three".to_string());
    assert_eq!(bar.tabs.len(), 3);
    assert_eq!(bar.active_tab, Some(c));

    // Closing the active tab activates its left neighbour.
    bar.close_tab(c);
    assert_eq!(bar.tabs.len(), 2);
    assert_eq!(bar.active_tab, Some(b));

    // Closing an inactive tab keeps the active one.
    bar.close_tab(a);
    assert_eq!(bar.active_tab, Some(b));

    bar.close_tab(b);
    assert!(bar.tabs.is_empty());
    assert_eq!(bar.active_tab, None);

    // An unknown identity changes nothing.
    bar.close_tab(b);
    assert!(bar.tabs.is_empty());
}

#[test]
fn saved_queries_start_with_equal_instants() {
    let q = SavedQuery::new("find users".to_string(), "SELECT * FROM users".to_string());
    assert_eq!(q.name, "find users");
    assert_eq!(q.sql, "SELECT * FROM users");
    assert!(q.connection_id.is_none());
    assert_eq!(q.created_at, q.updated_at);
    assert!(!q.created_at.is_empty());

    let d = SavedQuery::default();
    assert_eq!(d.name, "Untitled Query");
    assert!(d.sql.is_empty());
}
