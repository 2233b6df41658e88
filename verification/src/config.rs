//! The stored-connection catalog: the in-memory form of the configuration
//! the caller persists, and the conversions between stored records and live
//! connection configurations. Reading and writing the file itself — and its
//! on-disk format — are the caller's concern; this module owns the logic.

use vstd::prelude::*;
use vstd::string::StringExecFns;
use crate::ext;
use crate::models::connection::{ConnectionConfig, DatabaseType};
use crate::store::KeyedStore;

verus! {

/// What can go wrong around the configuration file. The read, parse and
/// serialize variants carry the underlying error's text.
#[derive(Debug, Clone)]
pub enum ConfigError {
    ReadError(String),
    ParseError(String),
    SerializeError(String),
    ConfigDirNotFound,
}

impl ConfigError {
    /// The rendering a status display shows.
    pub open spec fn spec_display(self) -> Seq<char> {
        match self {
            ConfigError::ReadError(m) => "Failed to read config file: "@ + m@,
            ConfigError::ParseError(m) => "Failed to parse config file: "@ + m@,
            ConfigError::SerializeError(m) => "Failed to serialize config: "@ + m@,
            ConfigError::ConfigDirNotFound => "Config directory not found"@,
        }
    }

    pub fn display_text(&self) -> (r: String)
        ensures
            r@ == self.spec_display(),
    {
        match self {
            ConfigError::ReadError(m) => "Failed to read config file: ".to_owned().concat(
                m.as_str(),
            ),
            ConfigError::ParseError(m) => "Failed to parse config file: ".to_owned().concat(
                m.as_str(),
            ),
            ConfigError::SerializeError(m) => "Failed to serialize config: ".to_owned().concat(
                m.as_str(),
            ),
            ConfigError::ConfigDirNotFound => "Config directory not found".to_owned(),
        }
    }
}

/// A connection as the caller stores it: no runtime identity, and an
/// optional file path for the file-backed backend.
#[derive(Debug)]
pub struct StoredConnection {
    pub name: String,
    pub host: String,
    pub port: Option<u16>,
    pub username: String,
    pub password: String,
    pub database: String,
    pub ssl_enabled: bool,
    pub color: Option<String>,
    pub file: Option<String>,
}

impl Default for StoredConnection {
    fn default() -> (r: Self)
        ensures
            r.name@ == Seq::<char>::empty(),
            r.host@ == Seq::<char>::empty(),
            r.port is None,
            r.username@ == Seq::<char>::empty(),
            r.password@ == Seq::<char>::empty(),
            r.database@ == Seq::<char>::empty(),
            !r.ssl_enabled,
            r.color is None,
            r.file is None,
    {
        StoredConnection {
            name: String::new(),
            host: String::new(),
            port: None,
            username: String::new(),
            password: String::new(),
            database: String::new(),
            ssl_enabled: false,
            color: None,
            file: None,
        }
    }
}

/// Application-wide settings kept beside the connections.
#[derive(Debug)]
pub struct NebulaSettings {
    pub last_connection: Option<String>,
    pub theme: Option<String>,
}

impl Default for NebulaSettings {
    fn default() -> (r: Self)
        ensures
            r.last_connection is None,
            r.theme is None,
    {
        NebulaSettings { last_connection: None, theme: None }
    }
}

/// The whole configuration: one keyed section per backend (keyed by the
/// connection's name, written whole-value per key) and the settings.
#[derive(Debug)]
pub struct AppConfig {
    pub mysql: KeyedStore<StoredConnection>,
    pub postgres: KeyedStore<StoredConnection>,
    pub sqlite: KeyedStore<StoredConnection>,
    pub mongodb: KeyedStore<StoredConnection>,
    pub nebula: NebulaSettings,
}

impl Default for AppConfig {
    fn default() -> (r: Self)
        ensures
            r.mysql.entries@.len() == 0,
            r.postgres.entries@.len() == 0,
            r.sqlite.entries@.len() == 0,
            r.mongodb.entries@.len() == 0,
            r.nebula.last_connection is None,
            r.nebula.theme is None,
    {
        AppConfig {
            mysql: KeyedStore::new(),
            postgres: KeyedStore::new(),
            sqlite: KeyedStore::new(),
            mongodb: KeyedStore::new(),
            nebula: NebulaSettings::default(),
        }
    }
}

/// How a live configuration reflects a stored record: every field carries
/// over; the display name falls back to the record's key when the record
/// names none; a missing port falls back to the backend's usual port. The
/// identity is freshly drawn, so it is not constrained here.
pub open spec fn spec_from_stored(
    c: ConnectionConfig,
    key: Seq<char>,
    stored: StoredConnection,
    db_type: DatabaseType,
) -> bool {
    &&& c.name@ == (if stored.name@.len() == 0 {
        key
    } else {
        stored.name@
    })
    &&& c.db_type == db_type
    &&& c.host@ == stored.host@
    &&& c.port == (match stored.port {
        Some(p) => p,
        None => db_type.spec_default_port(),
    })
    &&& c.username@ == stored.username@
    &&& c.password@ == stored.password@
    &&& c.ssl_enabled == stored.ssl_enabled
    &&& (match (c.color, stored.color) {
        (Some(a), Some(b)) => a@ == b@,
        (None, None) => true,
        _ => false,
    })
}

/// The database a converted configuration targets: the stored database name,
/// except that a file-backed record's file path takes its place.
pub open spec fn spec_stored_database(
    stored: StoredConnection,
    db_type: DatabaseType,
) -> Seq<char> {
    if db_type is SQLite && stored.file is Some {
        stored.file->0@
    } else {
        stored.database@
    }
}

/// Converts one stored record into a live configuration with a fresh
/// identity.
pub fn stored_to_connection_config(
    key: &str,
    stored: &StoredConnection,
    db_type: DatabaseType,
) -> (r: ConnectionConfig)
    ensures
        spec_from_stored(r, key@, *stored, db_type),
        r.database@ == stored.database@,
{
    let name = if stored.name.as_str().is_empty() {
        key.to_owned()
    } else {
        stored.name.clone()
    };
    let port = match stored.port {
        Some(p) => p,
        None => db_type.default_port(),
    };
    ConnectionConfig {
        id: ext::fresh_id(),
        name,
        db_type,
        host: stored.host.clone(),
        port,
        username: stored.username.clone(),
        password: stored.password.clone(),
        database: stored.database.clone(),
        ssl_enabled: stored.ssl_enabled,
        color: match &stored.color {
            Some(c) => Some(c.clone()),
            None => None,
        },
    }
}

/// Strips a live configuration back to a stored record (the file path is
/// the backend dispatch's concern, not this conversion's).
pub fn connection_config_to_stored(config: &ConnectionConfig) -> (r: StoredConnection)
    ensures
        r.name@ == config.name@,
        r.host@ == config.host@,
        r.port == Some(config.port),
        r.username@ == config.username@,
        r.password@ == config.password@,
        r.database@ == config.database@,
        r.ssl_enabled == config.ssl_enabled,
        (match (r.color, config.color) {
            (Some(a), Some(b)) => a@ == b@,
            (None, None) => true,
            _ => false,
        }),
        r.file is None,
{
    StoredConnection {
        name: config.name.clone(),
        host: config.host.clone(),
        port: Some(config.port),
        username: config.username.clone(),
        password: config.password.clone(),
        database: config.database.clone(),
        ssl_enabled: config.ssl_enabled,
        color: match &config.color {
            Some(c) => Some(c.clone()),
            None => None,
        },
        file: None,
    }
}

impl AppConfig {
    /// The configuration directory's path text under a given home directory.
    pub fn config_dir_under(home: String) -> (r: String)
        ensures
            r@ == home@ + "/.config/nebula"@,
    {
        let mut p = home;
        p.append("/.config/nebula");
        p
    }

    /// The configuration directory's path text, under the home directory the
    /// platform reports; the platform may report none.
    pub fn config_dir() -> (r: Result<String, ConfigError>)
        ensures
            r matches Ok(p) ==> exists|h: Seq<char>| p@ == #[trigger] (h + "/.config/nebula"@),
            r matches Err(e) ==> e is ConfigDirNotFound,
    {
        match ext::home_dir_text() {
            Some(home) => Ok(Self::config_dir_under(home)),
            None => Err(ConfigError::ConfigDirNotFound),
        }
    }

    /// The configuration file's path text.
    pub fn config_path() -> (r: Result<String, ConfigError>)
        ensures
            r matches Ok(p) ==> exists|h: Seq<char>|
                p@ == #[trigger] (h + "/.config/nebula"@) + "/config.toml"@,
            r matches Err(e) ==> e is ConfigDirNotFound,
    {
        match Self::config_dir() {
            Ok(dir) => {
                let ghost dir_view = dir@;
                let mut p = dir;
                p.append("/config.toml");
                Ok(p)
            },
            Err(e) => Err(e),
        }
    }

    /// Converts every stored record to a live configuration: first the
    /// MySQL section, then PostgreSQL, SQLite (where a stored file path
    /// replaces the database name) and MongoDB, each section in its stored
    /// order.
    pub fn get_connections(&self) -> (r: Vec<ConnectionConfig>)
        ensures
            r@.len() == self.mysql.entries@.len() + self.postgres.entries@.len()
                + self.sqlite.entries@.len() + self.mongodb.entries@.len(),
            forall|i: int|
                0 <= i < self.mysql.entries@.len() ==> spec_from_stored(
                    #[trigger] r@[i],
                    self.mysql.entries@[i].0@,
                    self.mysql.entries@[i].1,
                    DatabaseType::MySQL,
                ) && r@[i].database@ == self.mysql.entries@[i].1.database@,
            forall|i: int|
                0 <= i < self.postgres.entries@.len() ==> spec_from_stored(
                    #[trigger] r@[self.mysql.entries@.len() + i],
                    self.postgres.entries@[i].0@,
                    self.postgres.entries@[i].1,
                    DatabaseType::PostgreSQL,
                ) && r@[self.mysql.entries@.len() + i].database@
                    == self.postgres.entries@[i].1.database@,
            forall|i: int|
                0 <= i < self.sqlite.entries@.len() ==> spec_from_stored(
                    #[trigger] r@[self.mysql.entries@.len() + self.postgres.entries@.len() + i],
                    self.sqlite.entries@[i].0@,
                    self.sqlite.entries@[i].1,
                    DatabaseType::SQLite,
                ) && r@[self.mysql.entries@.len() + self.postgres.entries@.len() + i].database@
                    == spec_stored_database(self.sqlite.entries@[i].1, DatabaseType::SQLite),
            forall|i: int|
                0 <= i < self.mongodb.entries@.len() ==> spec_from_stored(
                    #[trigger] r@[self.mysql.entries@.len() + self.postgres.entries@.len()
                        + self.sqlite.entries@.len() + i],
                    self.mongodb.entries@[i].0@,
                    self.mongodb.entries@[i].1,
                    DatabaseType::MongoDB,
                ) && r@[self.mysql.entries@.len() + self.postgres.entries@.len()
                    + self.sqlite.entries@.len() + i].database@
                    == self.mongodb.entries@[i].1.database@,
    {
        let mut connections: Vec<ConnectionConfig> = Vec::new();

        let mut i: usize = 0;
        let n = self.mysql.entries.len();
        while i < n
            invariant
                n == self.mysql.entries@.len(),
                i <= n,
                connections@.len() == i,
                forall|t: int|
                    0 <= t < i ==> spec_from_stored(
                        #[trigger] connections@[t],
                        self.mysql.entries@[t].0@,
                        self.mysql.entries@[t].1,
                        DatabaseType::MySQL,
                    ) && connections@[t].database@ == self.mysql.entries@[t].1.database@,
            decreases n - i,
        {
            let entry = &self.mysql.entries[i];
            connections.push(
                stored_to_connection_config(entry.0.as_str(), &entry.1, DatabaseType::MySQL),
            );
            i += 1;
        }

        let ghost m = self.mysql.entries@.len();
        let mut i: usize = 0;
        let n = self.postgres.entries.len();
        while i < n
            invariant
                m == self.mysql.entries@.len(),
                n == self.postgres.entries@.len(),
                i <= n,
                connections@.len() == m + i,
                forall|t: int|
                    0 <= t < m ==> spec_from_stored(
                        #[trigger] connections@[t],
                        self.mysql.entries@[t].0@,
                        self.mysql.entries@[t].1,
                        DatabaseType::MySQL,
                    ) && connections@[t].database@ == self.mysql.entries@[t].1.database@,
                forall|t: int|
                    0 <= t < i ==> spec_from_stored(
                        #[trigger] connections@[m + t],
                        self.postgres.entries@[t].0@,
                        self.postgres.entries@[t].1,
                        DatabaseType::PostgreSQL,
                    ) && connections@[m + t].database@ == self.postgres.entries@[t].1.database@,
            decreases n - i,
        {
            let entry = &self.postgres.entries[i];
            connections.push(
                stored_to_connection_config(entry.0.as_str(), &entry.1, DatabaseType::PostgreSQL),
            );
            i += 1;
        }

        let ghost p = self.postgres.entries@.len();
        let mut i: usize = 0;
        let n = self.sqlite.entries.len();
        while i < n
            invariant
                m == self.mysql.entries@.len(),
                p == self.postgres.entries@.len(),
                n == self.sqlite.entries@.len(),
                i <= n,
                connections@.len() == m + p + i,
                forall|t: int|
                    0 <= t < m ==> spec_from_stored(
                        #[trigger] connections@[t],
                        self.mysql.entries@[t].0@,
                        self.mysql.entries@[t].1,
                        DatabaseType::MySQL,
                    ) && connections@[t].database@ == self.mysql.entries@[t].1.database@,
                forall|t: int|
                    0 <= t < p ==> spec_from_stored(
                        #[trigger] connections@[m + t],
                        self.postgres.entries@[t].0@,
                        self.postgres.entries@[t].1,
                        DatabaseType::PostgreSQL,
                    ) && connections@[m + t].database@ == self.postgres.entries@[t].1.database@,
                forall|t: int|
                    0 <= t < i ==> spec_from_stored(
                        #[trigger] connections@[m + p + t],
                        self.sqlite.entries@[t].0@,
                        self.sqlite.entries@[t].1,
                        DatabaseType::SQLite,
                    ) && connections@[m + p + t].database@ == spec_stored_database(
                        self.sqlite.entries@[t].1,
                        DatabaseType::SQLite,
                    ),
            decreases n - i,
        {
            let entry = &self.sqlite.entries[i];
            let mut conn = stored_to_connection_config(
                entry.0.as_str(),
                &entry.1,
                DatabaseType::SQLite,
            );
            match &entry.1.file {
                Some(file) => {
                    conn.database = file.clone();
                },
                None => {},
            }
            connections.push(conn);
            i += 1;
        }

        let ghost q = self.sqlite.entries@.len();
        let mut i: usize = 0;
        let n = self.mongodb.entries.len();
        while i < n
            invariant
                m == self.mysql.entries@.len(),
                p == self.postgres.entries@.len(),
                q == self.sqlite.entries@.len(),
                n == self.mongodb.entries@.len(),
                i <= n,
                connections@.len() == m + p + q + i,
                forall|t: int|
                    0 <= t < m ==> spec_from_stored(
                        #[trigger] connections@[t],
                        self.mysql.entries@[t].0@,
                        self.mysql.entries@[t].1,
                        DatabaseType::MySQL,
                    ) && connections@[t].database@ == self.mysql.entries@[t].1.database@,
                forall|t: int|
                    0 <= t < p ==> spec_from_stored(
                        #[trigger] connections@[m + t],
                        self.postgres.entries@[t].0@,
                        self.postgres.entries@[t].1,
                        DatabaseType::PostgreSQL,
                    ) && connections@[m + t].database@ == self.postgres.entries@[t].1.database@,
                forall|t: int|
                    0 <= t < q ==> spec_from_stored(
                        #[trigger] connections@[m + p + t],
                        self.sqlite.entries@[t].0@,
                        self.sqlite.entries@[t].1,
                        DatabaseType::SQLite,
                    ) && connections@[m + p + t].database@ == spec_stored_database(
                        self.sqlite.entries@[t].1,
                        DatabaseType::SQLite,
                    ),
                forall|t: int|
                    0 <= t < i ==> spec_from_stored(
                        #[trigger] connections@[m + p + q + t],
                        self.mongodb.entries@[t].0@,
                        self.mongodb.entries@[t].1,
                        DatabaseType::MongoDB,
                    ) && connections@[m + p + q + t].database@
                        == self.mongodb.entries@[t].1.database@,
            decreases n - i,
        {
            let entry = &self.mongodb.entries[i];
            connections.push(
                stored_to_connection_config(entry.0.as_str(), &entry.1, DatabaseType::MongoDB),
            );
            i += 1;
        }

        connections
    }

    /// Adds or updates a connection in the section its backend tag selects,
    /// keyed by its display name; the file-backed backend also records the
    /// database name as its file path.
    pub fn save_connection(&mut self, config: &ConnectionConfig)
        ensures
            config.db_type is MySQL ==> (final(self).mysql.spec_get(config.name@) matches Some(s)
                && s.name@ == config.name@ && s.host@ == config.host@ && s.port == Some(config.port)
                && s.database@ == config.database@ && s.file is None),
            config.db_type is PostgreSQL ==> (final(self).postgres.spec_get(config.name@) matches
                Some(s) && s.name@ == config.name@ && s.database@ == config.database@
                && s.file is None),
            config.db_type is SQLite ==> (final(self).sqlite.spec_get(config.name@) matches Some(s)
                && s.name@ == config.name@ && s.database@ == config.database@
                && (s.file matches Some(f) && f@ == config.database@)),
            config.db_type is MongoDB ==> (final(self).mongodb.spec_get(config.name@) matches Some(
                s,
            ) && s.name@ == config.name@ && s.database@ == config.database@ && s.file is None),
            !(config.db_type is MySQL) ==> final(self).mysql == old(self).mysql,
            !(config.db_type is PostgreSQL) ==> final(self).postgres == old(self).postgres,
            !(config.db_type is SQLite) ==> final(self).sqlite == old(self).sqlite,
            !(config.db_type is MongoDB) ==> final(self).mongodb == old(self).mongodb,
            forall|k: Seq<char>|
                k != config.name@ ==> final(self).mysql.spec_get(k) == old(self).mysql.spec_get(k)
                    && final(self).postgres.spec_get(k) == old(self).postgres.spec_get(k) && final(self).sqlite.spec_get(k) == old(self).sqlite.spec_get(k)
                    && final(self).mongodb.spec_get(k) == old(self).mongodb.spec_get(k),
            final(self).nebula == old(self).nebula,
    {
        let key = config.name.clone();
        let stored = connection_config_to_stored(config);

        match config.db_type {
            DatabaseType::MySQL => {
                self.mysql.put(key, stored);
            },
            DatabaseType::PostgreSQL => {
                self.postgres.put(key, stored);
            },
            DatabaseType::SQLite => {
                let mut stored = stored;
                stored.file = Some(config.database.clone());
                self.sqlite.put(key, stored);
            },
            DatabaseType::MongoDB => {
                self.mongodb.put(key, stored);
            },
        }
    }

    /// Removes the named connection from the section its backend tag
    /// selects.
    pub fn remove_connection(&mut self, name: &str, db_type: DatabaseType)
        ensures
            db_type is MySQL ==> final(self).mysql.spec_get(name@) is None,
            db_type is PostgreSQL ==> final(self).postgres.spec_get(name@) is None,
            db_type is SQLite ==> final(self).sqlite.spec_get(name@) is None,
            db_type is MongoDB ==> final(self).mongodb.spec_get(name@) is None,
            !(db_type is MySQL) ==> final(self).mysql == old(self).mysql,
            !(db_type is PostgreSQL) ==> final(self).postgres == old(self).postgres,
            !(db_type is SQLite) ==> final(self).sqlite == old(self).sqlite,
            !(db_type is MongoDB) ==> final(self).mongodb == old(self).mongodb,
            forall|k: Seq<char>|
                k != name@ ==> final(self).mysql.spec_get(k) == old(self).mysql.spec_get(k)
                    && final(self).postgres.spec_get(k) == old(self).postgres.spec_get(k) && final(self).sqlite.spec_get(k) == old(self).sqlite.spec_get(k)
                    && final(self).mongodb.spec_get(k) == old(self).mongodb.spec_get(k),
            final(self).nebula == old(self).nebula,
    {
        match db_type {
            DatabaseType::MySQL => {
                self.mysql.remove(name);
            },
            DatabaseType::PostgreSQL => {
                self.postgres.remove(name);
            },
            DatabaseType::SQLite => {
                self.sqlite.remove(name);
            },
            DatabaseType::MongoDB => {
                self.mongodb.remove(name);
            },
        }
    }

    /// Records the most recently used connection.
    pub fn set_last_connection(&mut self, name: &str)
        ensures
            final(self).nebula.last_connection matches Some(s) && s@ == name@,
            final(self).nebula.theme == old(self).nebula.theme,
            final(self).mysql == old(self).mysql,
            final(self).postgres == old(self).postgres,
            final(self).sqlite == old(self).sqlite,
            final(self).mongodb == old(self).mongodb,
    {
        self.nebula.last_connection = Some(name.to_owned());
    }
}

} // verus!
