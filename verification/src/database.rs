//! The SQLite database that holds the persistent server structure.

use rusqlite::Connection;
use vstd::prelude::*;

use crate::rooms::{room_row, room_type_text, RoomType, INSERT_ROOM};
use crate::base64_text::{base64_standard_encode};
use crate::trusted::{sqlite_execute_1, sqlite_execute_2, sqlite_execute_4, sqlite_execute_batch, sqlite_open, sqlite_open_in_memory, uuid_hyphenated_text};
use crate::wire::{RoomId, UserUid};

verus! {

/// Enables foreign-key enforcement, which SQLite leaves off on every new connection.
pub const ENABLE_FOREIGN_KEYS: &'static str = "PRAGMA foreign_keys = ON;";

/// The persistent tables: the single server configuration row, trusted identities
/// with their roles, and room definitions.
pub const SCHEMA: &'static str = "
CREATE TABLE IF NOT EXISTS server_config (
    id INTEGER PRIMARY KEY CHECK (id = 1),
    server_name TEXT NOT NULL DEFAULT 'Sovereign Hub',
    motd TEXT,
    allow_public_registration INTEGER NOT NULL DEFAULT 1,
    created_at DATETIME NOT NULL DEFAULT CURRENT_TIMESTAMP
);
CREATE TABLE IF NOT EXISTS trusted_users (
    user_uid TEXT PRIMARY KEY,
    display_name TEXT NOT NULL,
    server_role TEXT NOT NULL DEFAULT 'user',
    is_banned INTEGER NOT NULL DEFAULT 0,
    joined_at DATETIME NOT NULL DEFAULT CURRENT_TIMESTAMP
);
CREATE TABLE IF NOT EXISTS rooms (
    room_id TEXT PRIMARY KEY,
    name TEXT NOT NULL,
    room_type TEXT NOT NULL CHECK (room_type IN ('ram_voice', 'e2ee_text')),
    sort_order INTEGER NOT NULL DEFAULT 0,
    created_at DATETIME NOT NULL DEFAULT CURRENT_TIMESTAMP
);
";

/// Stores the server name in the single configuration row.
pub const UPSERT_SERVER_NAME: &'static str =
    "INSERT INTO server_config (id, server_name) VALUES (1, ?1) ON CONFLICT(id) DO UPDATE SET server_name = excluded.server_name";

/// Records an identity as administrator, keeping an existing display name.
pub const UPSERT_ADMINISTRATOR: &'static str =
    "INSERT INTO trusted_users (user_uid, display_name, server_role) VALUES (?1, ?2, 'admin') ON CONFLICT(user_uid) DO UPDATE SET server_role = 'admin'";

/// A write that the server makes to its database: the statement, and the
/// parameters bound to it.
pub enum StoreWrite {
    /// `ENABLE_FOREIGN_KEYS`.
    EnableForeignKeys,
    /// `SCHEMA`.
    CreateSchema,
    /// `UPSERT_SERVER_NAME` with the server name.
    SetServerName { server_name: String },
    /// `UPSERT_ADMINISTRATOR` with the Base64 identity and the display name.
    BootstrapAdministrator { user_uid_text: String, display_name: String },
    /// `INSERT_ROOM` with the room's column values.
    InsertRoom { room_id_text: String, name: String, room_type_text: String, sort_order: i64 },
}

impl StoreWrite {
    /// Stores `server_name` as the server's name.
    pub fn server_name(server_name: &str) -> (write: Self)
        ensures
            write matches StoreWrite::SetServerName { server_name: stored } && stored@ == server_name@,
    {
        StoreWrite::SetServerName { server_name: String::from_str(server_name) }
    }

    /// Records `user_uid`, keyed by its Base64 text, as administrator named
    /// `display_name`.
    pub fn administrator(user_uid: UserUid, display_name: &str) -> (write: Self)
        ensures
            write matches StoreWrite::BootstrapAdministrator { user_uid_text, display_name: stored_name }
                && user_uid_text@ == base64_standard_encode(user_uid.0@) && stored_name@ == display_name@,
    {
        StoreWrite::BootstrapAdministrator {
            user_uid_text: user_uid.to_base64(),
            display_name: String::from_str(display_name),
        }
    }

    /// Inserts a room, its identifier as hyphenated UUID text and its type as text.
    pub fn room(room_id: RoomId, name: &str, room_type: RoomType, sort_order: i64) -> (write: Self)
        ensures
            write matches StoreWrite::InsertRoom { room_id_text, name: stored_name, room_type_text: type_text, sort_order: order }
                && room_id_text@ == uuid_hyphenated_text(room_id) && stored_name@ == name@
                && type_text@ == room_type_text(room_type) && order == sort_order,
    {
        let (room_id_text, name, room_type_text, sort_order) = room_row(room_id, name, room_type, sort_order);
        StoreWrite::InsertRoom { room_id_text, name, room_type_text, sort_order }
    }
}

/// Runs `write` on `connection`: its statement with its parameters.
pub fn execute_write(connection: &Connection, write: &StoreWrite) -> Result<(), rusqlite::Error> {
    let outcome = match write {
        StoreWrite::EnableForeignKeys => return sqlite_execute_batch(connection, ENABLE_FOREIGN_KEYS),
        StoreWrite::CreateSchema => return sqlite_execute_batch(connection, SCHEMA),
        StoreWrite::SetServerName { server_name } => sqlite_execute_1(
            connection,
            UPSERT_SERVER_NAME,
            server_name.as_str(),
        ),
        StoreWrite::BootstrapAdministrator { user_uid_text, display_name } => sqlite_execute_2(
            connection,
            UPSERT_ADMINISTRATOR,
            user_uid_text.as_str(),
            display_name.as_str(),
        ),
        StoreWrite::InsertRoom { room_id_text, name, room_type_text, sort_order } => sqlite_execute_4(
            connection,
            INSERT_ROOM,
            room_id_text.as_str(),
            name.as_str(),
            room_type_text.as_str(),
            *sort_order,
        ),
    };
    match outcome {
        Ok(_) => Ok(()),
        Err(error) => Err(error),
    }
}

/// Owns the SQLite connection used for persistent server structure.
pub struct Database {
    connection: Connection,
}

impl Database {
    /// Opens (or creates) the database file at `path`.
    pub fn open(path: &str) -> Result<Self, rusqlite::Error> {
        let connection = match sqlite_open(path) {
            Ok(connection) => connection,
            Err(error) => return Err(error),
        };
        Self::from_connection(connection)
    }

    /// Opens a private in-memory database.
    pub fn open_in_memory() -> Result<Self, rusqlite::Error> {
        let connection = match sqlite_open_in_memory() {
            Ok(connection) => connection,
            Err(error) => return Err(error),
        };
        Self::from_connection(connection)
    }

    pub closed spec fn spec_connection(&self) -> Connection {
        self.connection
    }

    pub fn connection(&self) -> (connection: &Connection)
        ensures
            *connection == self.spec_connection(),
    {
        &self.connection
    }

    fn from_connection(connection: Connection) -> (database: Result<Self, rusqlite::Error>)
        ensures
            database matches Ok(database) ==> database.spec_connection() == connection,
    {
        match execute_write(&connection, &StoreWrite::EnableForeignKeys) {
            Ok(()) => Ok(Database { connection }),
            Err(error) => Err(error),
        }
    }

    /// Creates the persistent tables that do not exist yet.
    pub fn initialize_schema(&self) -> Result<(), rusqlite::Error> {
        execute_write(&self.connection, &StoreWrite::CreateSchema)
    }

    /// Stores the configured server name.
    pub fn set_server_name(&mut self, server_name: &str) -> Result<(), rusqlite::Error> {
        execute_write(&self.connection, &StoreWrite::server_name(server_name))
    }

    /// Records the configured initial administrator, keyed by the Base64 text of
    /// its identity.
    pub fn bootstrap_administrator(&mut self, user_uid: UserUid, display_name: &str) -> Result<(), rusqlite::Error> {
        execute_write(&self.connection, &StoreWrite::administrator(user_uid, display_name))
    }
}

} // verus!
