//! Widget-facing state the caller renders from: the query editor's text, the
//! results table's page, the connection form and its edits, and the tab bar.
//! Rendering lives outside the library; these types own the state and the
//! transitions the rendered messages trigger.

use vstd::prelude::*;
use crate::db::{DatabaseInfo, TableInfo, ViewInfo};
use crate::ext;
use crate::models::connection::{ConnectionConfig, DatabaseType};
use crate::models::query::QueryResult;
use crate::text;

verus! {

/// What the query editor can report.
#[derive(Debug, Clone)]
pub enum QueryEditorMessage {
    QueryChanged(String),
    ExecuteQuery,
    FormatQuery,
    ClearQuery,
    SaveQuery,
}

/// The query editor's state: its text and whether a run is under way.
#[derive(Debug, Clone)]
pub struct QueryEditor {
    pub content: String,
    pub is_executing: bool,
}

impl QueryEditor {
    pub fn new() -> (r: Self)
        ensures
            r.content@ == Seq::<char>::empty(),
            !r.is_executing,
    {
        QueryEditor { content: String::new(), is_executing: false }
    }

    pub fn with_content(content: String) -> (r: Self)
        ensures
            r.content == content,
            !r.is_executing,
    {
        QueryEditor { content, is_executing: false }
    }
}

impl Default for QueryEditor {
    fn default() -> (r: Self)
        ensures
            r.content@ == Seq::<char>::empty(),
            !r.is_executing,
    {
        QueryEditor::new()
    }
}

/// What the results table can report.
#[derive(Debug, Clone)]
pub enum ResultsTableMessage {
    NextPage,
    PrevPage,
    ExportResults,
    CopyCell(usize, usize),
}

/// The results table's state: the latest result or error, and paging.
#[derive(Debug)]
pub struct ResultsTable {
    pub result: Option<QueryResult>,
    pub page: usize,
    pub page_size: usize,
    pub error: Option<String>,
}

impl ResultsTable {
    pub fn new() -> (r: Self)
        ensures
            r.result is None,
            r.page == 0,
            r.page_size == 100,
            r.error is None,
    {
        ResultsTable { result: None, page: 0, page_size: 100, error: None }
    }

    pub fn with_result(result: QueryResult) -> (r: Self)
        ensures
            r.result == Some(result),
            r.page == 0,
            r.page_size == 100,
            r.error is None,
    {
        ResultsTable { result: Some(result), page: 0, page_size: 100, error: None }
    }

    pub fn with_error(error: String) -> (r: Self)
        ensures
            r.result is None,
            r.page == 0,
            r.page_size == 100,
            r.error == Some(error),
    {
        ResultsTable { result: None, page: 0, page_size: 100, error: Some(error) }
    }
}

impl Default for ResultsTable {
    fn default() -> (r: Self)
        ensures
            r.result is None,
            r.page == 0,
            r.page_size == 100,
            r.error is None,
    {
        ResultsTable::new()
    }
}

/// What the schema browser can report.
#[derive(Debug, Clone)]
pub enum SchemaBrowserMessage {
    SelectTable(String, String),
    SelectView(String, String),
    RefreshSchema,
    ExpandDatabase(String),
    CollapseDatabase(String),
    DescribeTable(String, String),
    LoadTableData(String, String),
}

/// What the connection form can report.
#[derive(Debug, Clone)]
pub enum ConnectionFormMessage {
    NameChanged(String),
    DatabaseTypeChanged(DatabaseType),
    HostChanged(String),
    PortChanged(String),
    UsernameChanged(String),
    PasswordChanged(String),
    DatabaseChanged(String),
    SslToggled(bool),
    TestConnection,
    SaveConnection,
    Cancel,
}

/// The connection form's state: the configuration under edit and the latest
/// test outcome.
#[derive(Debug)]
pub struct ConnectionForm {
    pub config: ConnectionConfig,
    pub is_testing: bool,
    pub test_result: Option<Result<(), String>>,
}

impl ConnectionForm {
    pub fn new() -> (r: Self)
        ensures
            !r.is_testing,
            r.test_result is None,
            r.config.db_type == DatabaseType::MySQL,
    {
        ConnectionForm {
            config: ConnectionConfig::default(),
            is_testing: false,
            test_result: None,
        }
    }

    pub fn with_config(config: ConnectionConfig) -> (r: Self)
        ensures
            r.config == config,
            !r.is_testing,
            r.test_result is None,
    {
        ConnectionForm { config, is_testing: false, test_result: None }
    }

    /// Applies one edit to the configuration under edit. A changed backend
    /// tag resets the port to that backend's usual one; port text is taken
    /// only when it parses as a port number; the action messages (test,
    /// save, cancel) change nothing here — the caller dispatches them.
    pub fn update(&mut self, message: ConnectionFormMessage)
        ensures
            ({
                let c = old(self).config;
                match message {
                    ConnectionFormMessage::NameChanged(name) => *final(self) == (ConnectionForm {
                        config: (ConnectionConfig { name, ..c }),
                        ..*old(self)
                    }),
                    ConnectionFormMessage::DatabaseTypeChanged(t) => *final(self)
                        == (ConnectionForm {
                        config: (ConnectionConfig {
                            db_type: t,
                            port: t.spec_default_port(),
                            ..c
                        }),
                        ..*old(self)
                    }),
                    ConnectionFormMessage::HostChanged(host) => *final(self) == (ConnectionForm {
                        config: (ConnectionConfig { host, ..c }),
                        ..*old(self)
                    }),
                    ConnectionFormMessage::PortChanged(port_text) => *final(self)
                        == (ConnectionForm {
                        config: (ConnectionConfig {
                            port: match text::spec_parse_u16(port_text@) {
                                Some(p) => p,
                                None => c.port,
                            },
                            ..c
                        }),
                        ..*old(self)
                    }),
                    ConnectionFormMessage::UsernameChanged(username) => *final(self)
                        == (ConnectionForm {
                        config: (ConnectionConfig { username, ..c }),
                        ..*old(self)
                    }),
                    ConnectionFormMessage::PasswordChanged(password) => *final(self)
                        == (ConnectionForm {
                        config: (ConnectionConfig { password, ..c }),
                        ..*old(self)
                    }),
                    ConnectionFormMessage::DatabaseChanged(database) => *final(self)
                        == (ConnectionForm {
                        config: (ConnectionConfig { database, ..c }),
                        ..*old(self)
                    }),
                    ConnectionFormMessage::SslToggled(enabled) => *final(self) == (ConnectionForm {
                        config: (ConnectionConfig { ssl_enabled: enabled, ..c }),
                        ..*old(self)
                    }),
                    _ => *final(self) == *old(self),
                }
            }),
    {
        match message {
            ConnectionFormMessage::NameChanged(name) => {
                self.config.name = name;
            },
            ConnectionFormMessage::DatabaseTypeChanged(db_type) => {
                self.config.db_type = db_type;
                self.config.port = db_type.default_port();
            },
            ConnectionFormMessage::HostChanged(host) => {
                self.config.host = host;
            },
            ConnectionFormMessage::PortChanged(port_text) => {
                match text::parse_u16(port_text.as_str()) {
                    Some(p) => {
                        self.config.port = p;
                    },
                    None => {},
                }
            },
            ConnectionFormMessage::UsernameChanged(username) => {
                self.config.username = username;
            },
            ConnectionFormMessage::PasswordChanged(password) => {
                self.config.password = password;
            },
            ConnectionFormMessage::DatabaseChanged(database) => {
                self.config.database = database;
            },
            ConnectionFormMessage::SslToggled(enabled) => {
                self.config.ssl_enabled = enabled;
            },
            _ => {},
        }
    }
}

impl Default for ConnectionForm {
    fn default() -> (r: Self)
        ensures
            !r.is_testing,
            r.test_result is None,
            r.config.db_type == DatabaseType::MySQL,
    {
        ConnectionForm::new()
    }
}

/// What the tab bar can report.
#[derive(Debug, Clone)]
pub enum TabBarMessage {
    SelectTab(u128),
    CloseTab(u128),
    NewTab,
}

/// One open tab, under a freshly drawn identity.
#[derive(Debug, Clone)]
pub struct Tab {
    pub id: u128,
    pub title: String,
    pub is_modified: bool,
}

impl Tab {
    pub fn new(title: String) -> (r: Self)
        ensures
            r.title == title,
            !r.is_modified,
    {
        Tab { id: ext::fresh_id(), title, is_modified: false }
    }
}

/// The position of the first tab bearing an identity.
pub open spec fn spec_tab_position(tabs: Seq<Tab>, id: u128) -> Option<int>
    decreases tabs.len(),
{
    if tabs.len() == 0 {
        None
    } else if tabs[0].id == id {
        Some(0)
    } else {
        match spec_tab_position(tabs.subrange(1, tabs.len() as int), id) {
            Some(j) => Some(j + 1),
            None => None,
        }
    }
}

proof fn lemma_tab_position_found(tabs: Seq<Tab>, id: u128, i: int)
    requires
        0 <= i < tabs.len(),
        tabs[i].id == id,
        forall|j: int| 0 <= j < i ==> tabs[j].id != id,
    ensures
        spec_tab_position(tabs, id) == Some(i),
    decreases i,
{
    if i == 0 {
    } else {
        let rest = tabs.subrange(1, tabs.len() as int);
        assert(rest[i - 1].id == id);
        assert(forall|j: int| 0 <= j < i - 1 ==> #[trigger] rest[j].id != id);
        lemma_tab_position_found(rest, id, i - 1);
    }
}

proof fn lemma_tab_position_none(tabs: Seq<Tab>, id: u128)
    requires
        forall|j: int| 0 <= j < tabs.len() ==> #[trigger] tabs[j].id != id,
    ensures
        spec_tab_position(tabs, id) is None,
    decreases tabs.len(),
{
    if tabs.len() > 0 {
        let rest = tabs.subrange(1, tabs.len() as int);
        assert(forall|j: int| 0 <= j < rest.len() ==> #[trigger] rest[j].id != id);
        lemma_tab_position_none(rest, id);
    }
}

/// The open tabs and which one is active.
#[derive(Debug)]
pub struct TabBar {
    pub tabs: Vec<Tab>,
    pub active_tab: Option<u128>,
}

impl TabBar {
    pub fn new() -> (r: Self)
        ensures
            r.tabs@.len() == 0,
            r.active_tab is None,
    {
        TabBar { tabs: Vec::new(), active_tab: None }
    }

    /// Opens a tab with the given title, at the end, and makes it active.
    pub fn add_tab(&mut self, title: String) -> (id: u128)
        ensures
            final(self).tabs@.len() == old(self).tabs@.len() + 1,
            final(self).tabs@.drop_last() == old(self).tabs@,
            final(self).tabs@.last().title == title,
            !final(self).tabs@.last().is_modified,
            final(self).tabs@.last().id == id,
            final(self).active_tab == Some(id),
    {
        let tab = Tab::new(title);
        let id = tab.id;
        self.tabs.push(tab);
        self.active_tab = Some(id);
        id
    }

    /// Closes the first tab bearing `id`, if one is open. When the closed
    /// tab was active, its left neighbour (or the new first tab) becomes
    /// active, or none when no tab remains. An unknown identity changes
    /// nothing.
    pub fn close_tab(&mut self, id: u128)
        ensures
            ({
                match spec_tab_position(old(self).tabs@, id) {
                    None => *final(self) == *old(self),
                    Some(pos) => {
                        &&& final(self).tabs@ == old(self).tabs@.remove(pos)
                        &&& old(self).active_tab != Some(id) ==> final(self).active_tab == old(
                            self,
                        ).active_tab
                        &&& old(self).active_tab == Some(id) ==> final(self).active_tab == (
                        if final(self).tabs@.len() == 0 {
                            None::<u128>
                        } else {
                            let neighbour = if pos > 0 {
                                pos - 1
                            } else {
                                0
                            };
                            if neighbour < final(self).tabs@.len() {
                                Some(final(self).tabs@[neighbour].id)
                            } else {
                                None::<u128>
                            }
                        })
                    },
                }
            }),
    {
        let n = self.tabs.len();
        let mut i: usize = 0;
        while i < n
            invariant
                *self == *old(self),
                n == self.tabs@.len(),
                i <= n,
                forall|j: int| 0 <= j < i ==> self.tabs@[j].id != id,
            decreases n - i,
        {
            if self.tabs[i].id == id {
                proof {
                    lemma_tab_position_found(self.tabs@, id, i as int);
                }
                self.tabs.remove(i);
                let was_active = match self.active_tab {
                    Some(a) => a == id,
                    None => false,
                };
                if was_active {
                    if self.tabs.len() == 0 {
                        self.active_tab = None;
                    } else {
                        let neighbour = if i > 0 {
                            i - 1
                        } else {
                            0
                        };
                        if neighbour < self.tabs.len() {
                            self.active_tab = Some(self.tabs[neighbour].id);
                        } else {
                            self.active_tab = None;
                        }
                    }
                }
                return ;
            }
            i += 1;
        }
        proof {
            lemma_tab_position_none(self.tabs@, id);
        }
    }
}

impl Default for TabBar {
    fn default() -> (r: Self)
        ensures
            r.tabs@.len() == 0,
            r.active_tab is None,
    {
        TabBar::new()
    }
}

} // verus!
