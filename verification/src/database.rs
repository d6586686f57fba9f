//! The storage handle and its lifecycle.
//!
//! Opening the pool, applying migrations and probing are the caller's part;
//! the handle says what to open, takes each outcome, and keeps the state:
//! disconnected, then connected, then migrated. A failure to connect or to
//! migrate ends the startup; a failed probe is an error of one request.

use vstd::prelude::*;
use crate::errors::{AppError, AppErrorView, ErrorKind};
use crate::paths::{parent, parent_of};
use crate::text::{concat2, failure_of, strip_leading, without_leading};

verus! {

/// What a connection string starts with before the database file's path.
pub const SCHEME: &'static str = "sqlite:";

/// How many seconds a connection waits for a lock before it fails.
pub const BUSY_TIMEOUT_SECS: u64 = 30;

/// Where a storage handle stands.
#[derive(Debug, Clone, Copy, PartialEq, Eq, Structural)]
pub enum StorageState {
    Disconnected,
    Connected,
    MigrationsApplied,
}

/// How the pool is to be opened.
#[derive(Debug, Clone, PartialEq, Eq)]
pub struct ConnectOptions {
    pub filename: String,
    pub create_if_missing: bool,
    pub busy_timeout_secs: u64,
    pub max_connections: u32,
}

/// The options as values.
pub struct ConnectOptionsView {
    pub filename: Seq<char>,
    pub create_if_missing: bool,
    pub busy_timeout_secs: u64,
    pub max_connections: u32,
}

impl View for ConnectOptions {
    type V = ConnectOptionsView;

    open spec fn view(&self) -> ConnectOptionsView {
        ConnectOptionsView {
            filename: self.filename@,
            create_if_missing: self.create_if_missing,
            busy_timeout_secs: self.busy_timeout_secs,
            max_connections: self.max_connections,
        }
    }
}

/// What went wrong with the storage, with the cause as the store gave it.
#[derive(Debug, Clone, PartialEq, Eq)]
pub enum StorageError {
    /// The directory of the database file could not be created.
    Directory(String),
    /// The pool could not be opened.
    Connection(String),
    /// A migration failed.
    Migration(String),
    /// The probe failed.
    Probe(String),
}

/// A storage error as values.
pub enum StorageErrorView {
    Directory(Seq<char>),
    Connection(Seq<char>),
    Migration(Seq<char>),
    Probe(Seq<char>),
}

impl View for StorageError {
    type V = StorageErrorView;

    open spec fn view(&self) -> StorageErrorView {
        match self {
            StorageError::Directory(cause) => StorageErrorView::Directory(cause@),
            StorageError::Connection(cause) => StorageErrorView::Connection(cause@),
            StorageError::Migration(cause) => StorageErrorView::Migration(cause@),
            StorageError::Probe(cause) => StorageErrorView::Probe(cause@),
        }
    }
}

/// A storage handle.
#[derive(Debug, Clone, PartialEq, Eq)]
pub struct Database {
    state: StorageState,
    filename: String,
    max_connections: u32,
}

/// A storage handle as values.
pub struct DatabaseView {
    pub state: StorageState,
    pub filename: Seq<char>,
    pub max_connections: u32,
}

impl View for Database {
    type V = DatabaseView;

    closed spec fn view(&self) -> DatabaseView {
        DatabaseView {
            state: self.state,
            filename: self.filename@,
            max_connections: self.max_connections,
        }
    }
}

/// The path of the database file that a connection string names: the string
/// without the scheme it starts with.
pub open spec fn database_file(url: Seq<char>) -> Seq<char> {
    without_leading(url, SCHEME@)
}

/// The options that open the pool of a handle: its file, created where it is
/// missing, the fixed busy timeout, and its bound on connections.
pub open spec fn options_of(db: DatabaseView) -> ConnectOptionsView {
    ConnectOptionsView {
        filename: db.filename,
        create_if_missing: true,
        busy_timeout_secs: BUSY_TIMEOUT_SECS,
        max_connections: db.max_connections,
    }
}

/// The handle `db` in another state.
pub open spec fn in_state(db: DatabaseView, state: StorageState) -> DatabaseView {
    DatabaseView { state, filename: db.filename, max_connections: db.max_connections }
}

/// The message of a storage error.
pub open spec fn storage_message(error: StorageErrorView) -> Seq<char> {
    match error {
        StorageErrorView::Directory(cause) => "Failed to create database directory: "@ + cause,
        StorageErrorView::Connection(cause) => cause,
        StorageErrorView::Migration(cause) => cause,
        StorageErrorView::Probe(cause) => cause,
    }
}

impl StorageError {
    /// The message: the cause, and for a directory what could not be done
    /// before it.
    pub fn message(&self) -> (text: String)
        ensures
            text@ == storage_message(self@),
    {
        match self {
            StorageError::Directory(cause) => concat2(
                "Failed to create database directory: ",
                cause.as_str(),
            ),
            StorageError::Connection(cause) => cause.clone(),
            StorageError::Migration(cause) => cause.clone(),
            StorageError::Probe(cause) => cause.clone(),
        }
    }

    /// The error as a handler reports it: of kind `Database`, with the
    /// message as detail.
    pub fn into_app_error(&self) -> (error: AppError)
        ensures
            error@ == (AppErrorView { kind: ErrorKind::Database, detail: storage_message(self@) }),
    {
        AppError::Database(self.message())
    }
}

impl Database {
    /// A handle for the store that `database_url` names, not connected yet.
    /// Its pool will hold at most `max_connections` connections.
    pub fn new(database_url: &str, max_connections: u32) -> (db: Database)
        ensures
            db@ == (DatabaseView {
                state: StorageState::Disconnected,
                filename: database_file(database_url@),
                max_connections,
            }),
    {
        Database {
            state: StorageState::Disconnected,
            filename: strip_leading(database_url, SCHEME),
            max_connections,
        }
    }

    /// Where the handle stands.
    pub fn state(&self) -> (state: StorageState)
        ensures
            state == self@.state,
    {
        self.state
    }

    /// Whether migrations have been applied: only then is the handle given
    /// to request handlers.
    pub fn is_ready(&self) -> (ready: bool)
        ensures
            ready == (self@.state == StorageState::MigrationsApplied),
    {
        match self.state {
            StorageState::MigrationsApplied => true,
            _ => false,
        }
    }

    /// The path of the database file.
    pub fn filename(&self) -> (path: &str)
        ensures
            path@ == self@.filename,
    {
        self.filename.as_str()
    }

    /// The directory to create before the pool is opened: the one that holds
    /// the database file, where its path has one.
    pub fn directory(&self) -> (dir: Option<String>)
        ensures
            dir.deep_view() == parent_of(self@.filename),
    {
        parent(self.filename.as_str())
    }

    /// The options to open the pool with.
    pub fn connect_options(&self) -> (options: ConnectOptions)
        ensures
            options@ == options_of(self@),
    {
        ConnectOptions {
            filename: self.filename.clone(),
            create_if_missing: true,
            busy_timeout_secs: BUSY_TIMEOUT_SECS,
            max_connections: self.max_connections,
        }
    }

    /// Takes the outcome of creating the directory: a failure is the error
    /// that ends the startup before the pool is opened.
    pub fn directory_created(&self, outcome: Result<(), String>) -> (result: Result<
        (),
        StorageError,
    >)
        ensures
            match failure_of(outcome) {
                None => result is Ok,
                Some(cause) => result matches Err(error) && error@ == StorageErrorView::Directory(
                    cause,
                ),
            },
    {
        match outcome {
            Ok(_) => Ok(()),
            Err(cause) => Err(StorageError::Directory(cause)),
        }
    }

    /// Takes the outcome of opening the pool: the connected handle, or the
    /// error with the cause given.
    pub fn connect(self, outcome: Result<(), String>) -> (result: Result<Database, StorageError>)
        requires
            self@.state == StorageState::Disconnected,
        ensures
            match failure_of(outcome) {
                None => result matches Ok(db) && db@ == in_state(self@, StorageState::Connected),
                Some(cause) => result matches Err(error) && error@ == StorageErrorView::Connection(
                    cause,
                ),
            },
    {
        match outcome {
            Ok(_) => Ok(
                Database {
                    state: StorageState::Connected,
                    filename: self.filename,
                    max_connections: self.max_connections,
                },
            ),
            Err(cause) => Err(StorageError::Connection(cause)),
        }
    }

    /// Takes the outcome of applying the pending migrations: the migrated
    /// handle, or the error with the cause given. What a failed run has
    /// applied stays applied.
    pub fn run_migration(self, outcome: Result<(), String>) -> (result: Result<
        Database,
        StorageError,
    >)
        requires
            self@.state == StorageState::Connected,
        ensures
            match failure_of(outcome) {
                None => result matches Ok(db) && db@ == in_state(
                    self@,
                    StorageState::MigrationsApplied,
                ),
                Some(cause) => result matches Err(error) && error@ == StorageErrorView::Migration(
                    cause,
                ),
            },
    {
        match outcome {
            Ok(_) => Ok(
                Database {
                    state: StorageState::MigrationsApplied,
                    filename: self.filename,
                    max_connections: self.max_connections,
                },
            ),
            Err(cause) => Err(StorageError::Migration(cause)),
        }
    }

    /// Takes the outcome of a probe. The handle stays as it is either way.
    pub fn health_check(&self, outcome: Result<(), String>) -> (result: Result<(), StorageError>)
        ensures
            match failure_of(outcome) {
                None => result is Ok,
                Some(cause) => result matches Err(error) && error@ == StorageErrorView::Probe(cause),
            },
    {
        match outcome {
            Ok(_) => Ok(()),
            Err(cause) => Err(StorageError::Probe(cause)),
        }
    }
}

} // verus!
