//! The database plugin's decisions: what an invocation asks for, how a
//! column of a row is read, and how the preferences schema is brought up to
//! date.

use vstd::prelude::*;
use crate::registry::{none_with_id, LYServerSharedData};
use crate::text::{decimal, decimal_text, join2, text_eq};

verus! {

/// The id of the database plugin.
pub const DATABASE_PLUGIN_ID: &'static str = "database@lyserver.local";

/// The only method that the database plugin offers.
pub const QUERY_METHOD: &'static str = "query";

/// The only database that the database plugin serves.
pub const PREFERENCES_DATABASE: &'static str = "preferences";

/// The file, under the data directory, that holds the preferences.
pub const PREFERENCES_DATABASE_FILE: &'static str = "preferences.db";

/// The version of the preferences schema that this server works with.
pub const PREFERENCES_DB_SCHEMA_VERSION: u32 = 1;

/// The number of seconds between two liveness probes of the database.
pub const HEALTH_CHECK_INTERVAL_SECS: u64 = 60;

/// The most connections that the pool of a database holds.
pub const MAX_CONNECTIONS: u32 = 5;

/// The statement that probes the liveness of a database.
pub const HEALTH_CHECK_STATEMENT: &'static str = "SELECT 1";

/// The statement that reads the version of a schema.
pub const GET_SCHEMA_VERSION_STATEMENT: &'static str = "PRAGMA user_version";

/// Why the database plugin refuses an invocation.
#[derive(Clone, Copy, Debug, PartialEq, Eq, Structural)]
pub enum LYServerDatabaseError {
    /// The method is not `query`.
    UnknownMethod,
    /// The database is not named.
    MissingDatabase,
    /// The statement is not given.
    MissingQuery,
    /// The database is not `preferences`.
    UnknownDatabase,
    /// The database plugin is not loaded.
    PluginNotFound,
    /// The database is not connected.
    NotConnected,
}

impl LYServerDatabaseError {
    /// The message of the failure; `subject` is the method or the database
    /// that is not known, for the failures that name one.
    pub open spec fn message_text(self, subject: Seq<char>) -> Seq<char> {
        match self {
            LYServerDatabaseError::UnknownMethod => "Unknown method: "@ + subject,
            LYServerDatabaseError::MissingDatabase => "Missing database argument for 'query' method"@,
            LYServerDatabaseError::MissingQuery => "Missing query argument for 'query' method"@,
            LYServerDatabaseError::UnknownDatabase => "Unknown database: "@ + subject,
            LYServerDatabaseError::PluginNotFound => "Database plugin not found"@,
            LYServerDatabaseError::NotConnected => "Database connection pool is not initialized."@,
        }
    }

    /// The message of the failure.
    pub fn message(self, subject: &str) -> (r: String)
        ensures
            r@ == self.message_text(subject@),
    {
        match self {
            LYServerDatabaseError::UnknownMethod => join2("Unknown method: ", subject),
            LYServerDatabaseError::MissingDatabase => "Missing database argument for 'query' method".to_owned(),
            LYServerDatabaseError::MissingQuery => "Missing query argument for 'query' method".to_owned(),
            LYServerDatabaseError::UnknownDatabase => join2("Unknown database: ", subject),
            LYServerDatabaseError::PluginNotFound => "Database plugin not found".to_owned(),
            LYServerDatabaseError::NotConnected => "Database connection pool is not initialized.".to_owned(),
        }
    }
}

/// What a `query` invocation asks for.
#[derive(Debug, PartialEq, Eq)]
pub struct LYServerDatabaseQuery {
    /// The database to ask.
    pub database: String,
    /// The statement.
    pub query: String,
    /// The values to bind, in order.
    pub args: Vec<String>,
}

/// Texts as mathematical values.
pub open spec fn texts(strings: Seq<String>) -> Seq<Seq<char>> {
    Seq::new(strings.len(), |i: int| strings[i]@)
}

/// What an invocation of the database plugin comes to. The method has to be
/// `query`; the first argument names the database, which has to be
/// `preferences`; the second is the statement; what follows is bound to the
/// statement.
pub open spec fn invocation(method: Seq<char>, args: Seq<Seq<char>>) -> Result<
    (Seq<char>, Seq<char>, Seq<Seq<char>>),
    LYServerDatabaseError,
> {
    if method != QUERY_METHOD@ {
        Err(LYServerDatabaseError::UnknownMethod)
    } else if args.len() < 1 {
        Err(LYServerDatabaseError::MissingDatabase)
    } else if args.len() < 2 {
        Err(LYServerDatabaseError::MissingQuery)
    } else if args[0] != PREFERENCES_DATABASE@ {
        Err(LYServerDatabaseError::UnknownDatabase)
    } else {
        Ok((args[0], args[1], args.subrange(2, args.len() as int)))
    }
}

/// The database plugin.
pub struct LYServerDatabasePlugin;

impl LYServerDatabasePlugin {
    /// Reads an invocation.
    pub fn invoke(method: &str, args: &Vec<String>) -> (r: Result<
        LYServerDatabaseQuery,
        LYServerDatabaseError,
    >)
        ensures
            match r {
                Ok(asked) => invocation(method@, texts(args@)) == Ok::<
                    (Seq<char>, Seq<char>, Seq<Seq<char>>),
                    LYServerDatabaseError,
                >((asked.database@, asked.query@, texts(asked.args@))),
                Err(e) => invocation(method@, texts(args@)) == Err::<
                    (Seq<char>, Seq<char>, Seq<Seq<char>>),
                    LYServerDatabaseError,
                >(e),
            },
    {
        if !text_eq(method, QUERY_METHOD) {
            return Err(LYServerDatabaseError::UnknownMethod);
        }
        let n: usize = args.len();
        if n < 1 {
            return Err(LYServerDatabaseError::MissingDatabase);
        }
        if n < 2 {
            return Err(LYServerDatabaseError::MissingQuery);
        }
        if !text_eq(args[0].as_str(), PREFERENCES_DATABASE) {
            return Err(LYServerDatabaseError::UnknownDatabase);
        }
        let mut bound: Vec<String> = Vec::new();
        let mut i: usize = 2;
        while i < n
            invariant
                n == args@.len(),
                2 <= i <= n,
                bound@.len() == i - 2,
                forall|j: int| 0 <= j < bound@.len() ==> bound@[j]@ == args@[j + 2]@,
            decreases n - i,
        {
            bound.push(args[i].clone());
            i = i + 1;
        }
        assert(texts(bound@) =~= texts(args@).subrange(2, args@.len() as int));
        Ok(LYServerDatabaseQuery { database: args[0].clone(), query: args[1].clone(), args: bound })
    }
}

/// How the value of a column is read.
#[derive(Clone, Copy, Debug, PartialEq, Eq, Structural)]
pub enum LYServerColumnKind {
    /// As a 64-bit integer, rendered in decimal.
    Integer,
    /// As a floating-point number.
    Real,
    /// As a text.
    Text,
    /// As a truth value, rendered as `true` or `false`.
    Boolean,
}

/// How the value of a column of the given declared type is read: every type
/// that is not an integer, a real or a boolean is read as a text.
pub open spec fn column_kind_of(declared: Seq<char>) -> LYServerColumnKind {
    if declared == "INTEGER"@ || declared == "INT"@ {
        LYServerColumnKind::Integer
    } else if declared == "REAL"@ {
        LYServerColumnKind::Real
    } else if declared == "TEXT"@ {
        LYServerColumnKind::Text
    } else if declared == "BOOLEAN"@ {
        LYServerColumnKind::Boolean
    } else {
        LYServerColumnKind::Text
    }
}

/// How the value of a column of the given declared type is read.
pub fn column_kind(declared: &str) -> (r: LYServerColumnKind)
    ensures
        r == column_kind_of(declared@),
{
    if text_eq(declared, "INTEGER") || text_eq(declared, "INT") {
        LYServerColumnKind::Integer
    } else if text_eq(declared, "REAL") {
        LYServerColumnKind::Real
    } else if text_eq(declared, "TEXT") {
        LYServerColumnKind::Text
    } else if text_eq(declared, "BOOLEAN") {
        LYServerColumnKind::Boolean
    } else {
        LYServerColumnKind::Text
    }
}

/// What every database of the server can do: connect, disconnect, and say
/// how its liveness is probed.
pub trait LYServerDatabaseLifecycle {
    /// Whether the database is connected.
    spec fn is_connected(&self) -> bool;

    /// Notes the outcome of the opening of the connection pool: the database
    /// is connected if and only if the pool was opened.
    fn connect(&mut self, opened: bool) -> (r: Result<(), LYServerDatabaseError>)
        ensures
            final(self).is_connected() == opened,
            r is Ok <==> opened,
            r is Err ==> r == Err::<(), LYServerDatabaseError>(LYServerDatabaseError::NotConnected),
    ;

    /// Disconnects, and says whether there was a pool to close.
    fn disconnect(&mut self) -> (r: bool)
        ensures
            r == old(self).is_connected(),
            !final(self).is_connected(),
    ;

    /// The statement that probes the liveness of the database, where the
    /// database is connected.
    fn health_check(&self) -> (r: Result<&'static str, LYServerDatabaseError>)
        ensures
            match r {
                Ok(statement) => self.is_connected() && statement@ == HEALTH_CHECK_STATEMENT@,
                Err(e) => !self.is_connected() && e == LYServerDatabaseError::NotConnected,
            },
    ;
}

/// A database: the address that it is reached at, and whether its
/// connection pool is open.
#[derive(Debug, PartialEq, Eq)]
pub struct LYServerDatabase {
    pub db_connection_uri: String,
    pub connected: bool,
}

impl LYServerDatabase {
    /// The database in the file at the given path, not connected yet.
    pub fn new(db_path: &str) -> (r: Self)
        ensures
            r.db_connection_uri@ == "sqlite://"@ + db_path@,
            !r.connected,
    {
        LYServerDatabase { db_connection_uri: join2("sqlite://", db_path), connected: false }
    }

    /// The statement that reads the version of the schema, where the
    /// database is connected.
    pub fn get_schema_version(&self) -> (r: Result<&'static str, LYServerDatabaseError>)
        ensures
            match r {
                Ok(statement) => self.connected && statement@ == GET_SCHEMA_VERSION_STATEMENT@,
                Err(e) => !self.connected && e == LYServerDatabaseError::NotConnected,
            },
    {
        if self.connected {
            Ok(GET_SCHEMA_VERSION_STATEMENT)
        } else {
            Err(LYServerDatabaseError::NotConnected)
        }
    }

    /// The statement that sets the version of the schema, where the database
    /// is connected.
    pub fn set_schema_version(&self, version: u32) -> (r: Result<String, LYServerDatabaseError>)
        ensures
            match r {
                Ok(statement) => self.connected && statement@ == "PRAGMA user_version = "@ + decimal(
                    version as nat,
                ),
                Err(e) => !self.connected && e == LYServerDatabaseError::NotConnected,
            },
    {
        if !self.connected {
            return Err(LYServerDatabaseError::NotConnected);
        }
        let number = decimal_text(version as u64);
        Ok(join2("PRAGMA user_version = ", number.as_str()))
    }

    /// Whether the connection pool can be handed out: it can where the
    /// database is connected.
    pub fn get_pool(&self) -> (r: Result<(), LYServerDatabaseError>)
        ensures
            r == if self.connected {
                Ok::<(), LYServerDatabaseError>(())
            } else {
                Err::<(), LYServerDatabaseError>(LYServerDatabaseError::NotConnected)
            },
    {
        if self.connected {
            Ok(())
        } else {
            Err(LYServerDatabaseError::NotConnected)
        }
    }
}

impl LYServerDatabaseLifecycle for LYServerDatabase {
    open spec fn is_connected(&self) -> bool {
        self.connected
    }

    fn connect(&mut self, opened: bool) -> (r: Result<(), LYServerDatabaseError>) {
        self.connected = opened;
        if opened {
            Ok(())
        } else {
            Err(LYServerDatabaseError::NotConnected)
        }
    }

    fn disconnect(&mut self) -> (r: bool) {
        let was = self.connected;
        self.connected = false;
        was
    }

    fn health_check(&self) -> (r: Result<&'static str, LYServerDatabaseError>) {
        if self.connected {
            Ok(HEALTH_CHECK_STATEMENT)
        } else {
            Err(LYServerDatabaseError::NotConnected)
        }
    }
}

/// The first statement of the preferences schema: foreign keys are checked.
pub const PREFERENCES_SCHEMA_FOREIGN_KEYS: &'static str = "PRAGMA foreign_keys = ON";

/// The second: the table of the native types.
pub const PREFERENCES_SCHEMA_TYPE_TABLE: &'static str =
    "CREATE TABLE IF NOT EXISTS preference_native_type_lookup (
                        id INTEGER PRIMARY KEY NOT NULL,
                        type TEXT NOT NULL
                    )";

/// The third: the native types, each under its number.
pub const PREFERENCES_SCHEMA_TYPES: &'static str =
    "INSERT OR IGNORE INTO preference_native_type_lookup (id, type) VALUES
                        (0, 'null'),
                        (1, 'i32'),
                        (2, 'f32'),
                        (3, 'u32'),
                        (4, 'bool'),
                        (5, 'str'),
                        (6, 'json')
                    ";

/// The fourth: the table of the preferences.
pub const PREFERENCES_SCHEMA_TABLE: &'static str =
    "CREATE TABLE IF NOT EXISTS preferences (
                        key TEXT PRIMARY KEY NOT NULL,
                        value TEXT,
                        native_type_id INTEGER NOT NULL,
                        is_locked INTEGER NOT NULL DEFAULT (0),
                        created_at DATETIME DEFAULT (CURRENT_TIMESTAMP),
                        updated_at DATETIME DEFAULT (CURRENT_TIMESTAMP),
                        CHECK (is_locked IN (0, 1)),
                        FOREIGN KEY (native_type_id) REFERENCES preference_native_type_lookup (id)
                    )";

/// The fifth: the trigger that keeps the time of the last update.
pub const PREFERENCES_SCHEMA_TRIGGER: &'static str =
    "CREATE TRIGGER IF NOT EXISTS preferences_update_trigger 
                        AFTER UPDATE ON preferences 
                        BEGIN 
                            UPDATE preferences 
                            SET updated_at = CURRENT_TIMESTAMP 
                            WHERE key = NEW.key; 
                        END
                    ";

/// What a migration of the preferences schema does.
#[derive(Debug, PartialEq, Eq)]
pub struct LYServerMigration {
    /// The statements to run, in order.
    pub statements: Vec<&'static str>,
    /// The schema version to set afterwards, if it is to be set.
    pub set_version: Option<u32>,
}

/// The statements that make the first version of the preferences schema.
pub open spec fn schema_statements() -> Seq<Seq<char>> {
    seq![
        PREFERENCES_SCHEMA_FOREIGN_KEYS@,
        PREFERENCES_SCHEMA_TYPE_TABLE@,
        PREFERENCES_SCHEMA_TYPES@,
        PREFERENCES_SCHEMA_TABLE@,
        PREFERENCES_SCHEMA_TRIGGER@,
    ]
}

/// The statements of a migration as mathematical values.
pub open spec fn statement_texts(statements: Seq<&'static str>) -> Seq<Seq<char>> {
    Seq::new(statements.len(), |i: int| statements[i]@)
}

/// The preferences database.
#[derive(Debug, PartialEq, Eq)]
pub struct LYServerPreferencesDatabase {
    pub db: LYServerDatabase,
}

impl LYServerPreferencesDatabase {
    /// The preferences database in the file at the given path, not connected
    /// yet.
    pub fn new(db_path: &str) -> (r: Self)
        ensures
            r.db.db_connection_uri@ == "sqlite://"@ + db_path@,
            !r.db.connected,
    {
        LYServerPreferencesDatabase { db: LYServerDatabase::new(db_path) }
    }

    /// What has to be done to a preferences database whose schema has the
    /// given version: a database without a schema gets the schema, and a
    /// schema that is older than the server's gets the server's version.
    pub fn maybe_migrate_schema(current_version: u32) -> (r: LYServerMigration)
        ensures
            statement_texts(r.statements@) == if current_version < 1 {
                schema_statements()
            } else {
                Seq::<Seq<char>>::empty()
            },
            r.set_version == if current_version < PREFERENCES_DB_SCHEMA_VERSION {
                Some(PREFERENCES_DB_SCHEMA_VERSION)
            } else {
                None::<u32>
            },
    {
        let mut statements: Vec<&'static str> = Vec::new();
        if current_version < 1 {
            statements.push(PREFERENCES_SCHEMA_FOREIGN_KEYS);
            statements.push(PREFERENCES_SCHEMA_TYPE_TABLE);
            statements.push(PREFERENCES_SCHEMA_TYPES);
            statements.push(PREFERENCES_SCHEMA_TABLE);
            statements.push(PREFERENCES_SCHEMA_TRIGGER);
            assert(statement_texts(statements@) =~= schema_statements());
        } else {
            assert(statement_texts(statements@) =~= Seq::<Seq<char>>::empty());
        }
        let set_version = if current_version < PREFERENCES_DB_SCHEMA_VERSION {
            Some(PREFERENCES_DB_SCHEMA_VERSION)
        } else {
            None
        };
        LYServerMigration { statements, set_version }
    }
}

impl LYServerDatabaseLifecycle for LYServerPreferencesDatabase {
    open spec fn is_connected(&self) -> bool {
        self.db.connected
    }

    fn connect(&mut self, opened: bool) -> (r: Result<(), LYServerDatabaseError>) {
        self.db.connect(opened)
    }

    fn disconnect(&mut self) -> (r: bool) {
        self.db.disconnect()
    }

    fn health_check(&self) -> (r: Result<&'static str, LYServerDatabaseError>) {
        self.db.health_check()
    }
}

impl<P, C, S> LYServerSharedData<P, C, S> {
    /// The arguments with which the database plugin is to be invoked for a
    /// query: the database, the statement, and the values to bind. Without a
    /// loaded database plugin there is nobody to invoke.
    pub fn query(&self, database: String, query: String, args: Vec<String>) -> (r: Result<
        Vec<String>,
        LYServerDatabaseError,
    >)
        ensures
            match r {
                Ok(params) => !none_with_id(self.loaded_plugins@, DATABASE_PLUGIN_ID@) && texts(
                    params@,
                ) == seq![database@, query@] + texts(args@),
                Err(e) => none_with_id(self.loaded_plugins@, DATABASE_PLUGIN_ID@) && e
                    == LYServerDatabaseError::PluginNotFound,
            },
    {
        if self.find_plugin(DATABASE_PLUGIN_ID).is_none() {
            return Err(LYServerDatabaseError::PluginNotFound);
        }
        let mut params: Vec<String> = Vec::new();
        params.push(database);
        params.push(query);
        let n: usize = args.len();
        let mut i: usize = 0;
        while i < n
            invariant
                n == args@.len(),
                i <= n,
                params@.len() == i + 2,
                params@[0]@ == database@,
                params@[1]@ == query@,
                forall|j: int| 0 <= j < i ==> params@[j + 2]@ == args@[j]@,
            decreases n - i,
        {
            params.push(args[i].clone());
            i = i + 1;
        }
        assert(texts(params@) =~= seq![database@, query@] + texts(args@));
        Ok(params)
    }
}

} // verus!
