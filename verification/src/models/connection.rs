use vstd::prelude::*;
use vstd::string::StringExecFns;
use crate::ext;
use crate::text;

verus! {

/// Supported backend type tags. The set is closed: the factory dispatches on
/// this tag and reports an unsupported tag as a typed outcome.
#[derive(Debug, Clone, Copy, PartialEq, Eq, Structural)]
pub enum DatabaseType {
    MySQL,
    PostgreSQL,
    SQLite,
    MongoDB,
}

impl DatabaseType {
    /// The port a connection form offers before the user picks one.
    pub open spec fn spec_default_port(self) -> u16 {
        match self {
            DatabaseType::MySQL => 3306,
            DatabaseType::PostgreSQL => 5432,
            DatabaseType::SQLite => 0,
            DatabaseType::MongoDB => 27017,
        }
    }

    pub fn default_port(&self) -> (r: u16)
        ensures
            r == self.spec_default_port(),
    {
        match self {
            DatabaseType::MySQL => 3306,
            DatabaseType::PostgreSQL => 5432,
            DatabaseType::SQLite => 0,
            DatabaseType::MongoDB => 27017,
        }
    }

    pub open spec fn spec_display_name(self) -> Seq<char> {
        match self {
            DatabaseType::MySQL => "MySQL"@,
            DatabaseType::PostgreSQL => "PostgreSQL"@,
            DatabaseType::SQLite => "SQLite"@,
            DatabaseType::MongoDB => "MongoDB"@,
        }
    }

    pub fn display_name(&self) -> (r: &'static str)
        ensures
            r@ == self.spec_display_name(),
    {
        match self {
            DatabaseType::MySQL => "MySQL",
            DatabaseType::PostgreSQL => "PostgreSQL",
            DatabaseType::SQLite => "SQLite",
            DatabaseType::MongoDB => "MongoDB",
        }
    }

    pub open spec fn spec_icon(self) -> Seq<char> {
        match self {
            DatabaseType::MySQL => "🐬"@,
            DatabaseType::PostgreSQL => "🐘"@,
            DatabaseType::SQLite => "📁"@,
            DatabaseType::MongoDB => "🍃"@,
        }
    }

    /// A short label a list view can show beside the connection's name.
    pub fn icon(&self) -> (r: &'static str)
        ensures
            r@ == self.spec_icon(),
    {
        match self {
            DatabaseType::MySQL => "🐬",
            DatabaseType::PostgreSQL => "🐘",
            DatabaseType::SQLite => "📁",
            DatabaseType::MongoDB => "🍃",
        }
    }
}

/// Everything needed to construct one live connection: identity, backend
/// tag, endpoint, credentials, target database. Created by the caller,
/// consumed once to build a connection; this library never persists it.
#[derive(Debug)]
pub struct ConnectionConfig {
    pub id: u128,
    pub name: String,
    pub db_type: DatabaseType,
    pub host: String,
    pub port: u16,
    pub username: String,
    pub password: String,
    pub database: String,
    pub ssl_enabled: bool,
    pub color: Option<String>,
}

impl ConnectionConfig {
    /// The connection URI the backend driver dials, by backend tag.
    pub open spec fn spec_connection_string(self) -> Seq<char> {
        match self.db_type {
            DatabaseType::MySQL => "mysql://"@ + self.spec_authority(),
            DatabaseType::PostgreSQL => "postgres://"@ + self.spec_authority(),
            DatabaseType::SQLite => "sqlite:"@ + self.database@,
            DatabaseType::MongoDB => "mongodb://"@ + self.spec_authority(),
        }
    }

    /// The `user:password@host:port/database` part shared by the networked
    /// backends.
    pub open spec fn spec_authority(self) -> Seq<char> {
        self.username@ + ":"@ + self.password@ + "@"@ + self.host@ + ":"@
            + text::spec_u64_text(self.port as nat) + "/"@ + self.database@
    }

    fn authority(&self) -> (r: String)
        ensures
            r@ == self.spec_authority(),
    {
        let mut r = self.username.clone();
        r.append(":");
        r.append(self.password.as_str());
        r.append("@");
        r.append(self.host.as_str());
        r.append(":");
        let port_text = text::u64_text(self.port as u64);
        r.append(port_text.as_str());
        r.append("/");
        r.append(self.database.as_str());
        r
    }

    pub fn connection_string(&self) -> (r: String)
        ensures
            r@ == self.spec_connection_string(),
    {
        match self.db_type {
            DatabaseType::MySQL => "mysql://".to_owned().concat(self.authority().as_str()),
            DatabaseType::PostgreSQL => "postgres://".to_owned().concat(
                self.authority().as_str(),
            ),
            DatabaseType::SQLite => "sqlite:".to_owned().concat(self.database.as_str()),
            DatabaseType::MongoDB => "mongodb://".to_owned().concat(self.authority().as_str()),
        }
    }
}

impl Clone for ConnectionConfig {
    fn clone(&self) -> (r: Self)
        ensures
            r == *self,
    {
        ConnectionConfig {
            id: self.id,
            name: self.name.clone(),
            db_type: self.db_type,
            host: self.host.clone(),
            port: self.port,
            username: self.username.clone(),
            password: self.password.clone(),
            database: self.database.clone(),
            ssl_enabled: self.ssl_enabled,
            color: match &self.color {
                Some(c) => Some(c.clone()),
                None => None,
            },
        }
    }
}

impl Default for ConnectionConfig {
    /// A blank MySQL connection form: localhost, the backend's usual port,
    /// the conventional administrative user, and a freshly drawn identity.
    fn default() -> (r: Self)
        ensures
            r.name@ == "New Connection"@,
            r.db_type == DatabaseType::MySQL,
            r.host@ == "localhost"@,
            r.port == 3306,
            r.username@ == "root"@,
            r.password@ == Seq::<char>::empty(),
            r.database@ == Seq::<char>::empty(),
            !r.ssl_enabled,
            r.color is None,
    {
        ConnectionConfig {
            id: ext::fresh_id(),
            name: "New Connection".to_owned(),
            db_type: DatabaseType::MySQL,
            host: "localhost".to_owned(),
            port: 3306,
            username: "root".to_owned(),
            password: String::new(),
            database: String::new(),
            ssl_enabled: false,
            color: None,
        }
    }
}

/// Lifecycle of one logical connection, as the caller's state tracks it.
#[derive(Debug, Clone, PartialEq, Eq, Structural)]
pub enum ConnectionState {
    Disconnected,
    Connecting,
    Connected,
    Error,
}

impl Default for ConnectionState {
    fn default() -> (r: Self)
        ensures
            r == ConnectionState::Disconnected,
    {
        ConnectionState::Disconnected
    }
}

} // verus!
