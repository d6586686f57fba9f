use oxprint_backend::database::{
    ConnectOptions, Database, StorageError, StorageState, BUSY_TIMEOUT_SECS, SCHEME,
};
use oxprint_backend::errors::{AppError, ErrorKind};
use oxprint_backend::state::AppState;
use oxprint_backend::settings::Settings;

#[test]
fn a_new_handle_is_disconnected() {
    let db = Database::new("sqlite:data/oxprint.db", 5);
    assert_eq!(db.state(), StorageState::Disconnected);
    assert!(!db.is_ready());
    assert_eq!(db.filename(), "data/oxprint.db");
}

#[test]
fn the_database_file_is_the_url_without_its_scheme() {
    assert_eq!(SCHEME, "sqlite:");
    assert_eq!(Database::new("sqlite:data/oxprint.db", 5).filename(), "data/oxprint.db");
    assert_eq!(Database::new("data/oxprint.db", 5).filename(), "data/oxprint.db");
    assert_eq!(Database::new("sqlite:sqlite:x.db", 5).filename(), "x.db");
    assert_eq!(Database::new("sqlite::memory:", 5).filename(), ":memory:");
    assert_eq!(Database::new("sqlite:///var/x.db", 5).filename(), "///var/x.db");
    assert_eq!(Database::new("", 5).filename(), "");
}

#[test]
fn the_directory_is_the_one_that_holds_the_file() {
    assert_eq!(Database::new("sqlite:data/oxprint.db", 5).directory(), Some("data".to_string()));
    assert_eq!(Database::new("sqlite:/var/lib/ox/db.sqlite", 5).directory(), Some("/var/lib/ox".to_string()));
    assert_eq!(Database::new("sqlite:oxprint.db", 5).directory(), Some("".to_string()));
    assert_eq!(Database::new("sqlite:", 5).directory(), None);
    assert_eq!(Database::new("sqlite:/", 5).directory(), None);
}

#[test]
fn the_pool_is_opened_with_the_fixed_options() {
    assert_eq!(BUSY_TIMEOUT_SECS, 30);
    let db = Database::new("sqlite:data/oxprint.db", 7);
    assert_eq!(
        db.connect_options(),
        ConnectOptions {
            filename: "data/oxprint.db".to_string(),
            create_if_missing: true,
            busy_timeout_secs: 30,
            max_connections: 7,
        }
    );
}

#[test]
fn the_handle_goes_from_connected_to_migrated() {
    let db = Database::new("sqlite:data/oxprint.db", 5);
    let db = db.connect(Ok(())).unwrap();
    assert_eq!(db.state(), StorageState::Connected);
    assert!(!db.is_ready());
    let db = db.run_migration(Ok(())).unwrap();
    assert_eq!(db.state(), StorageState::MigrationsApplied);
    assert!(db.is_ready());
    assert_eq!(db.filename(), "data/oxprint.db");
    assert_eq!(db.connect_options().max_connections, 5);
}

#[test]
fn a_failed_connection_is_a_connection_error() {
    let db = Database::new("sqlite:data/oxprint.db", 5);
    let error = db.connect(Err("unable to open database file".to_string())).unwrap_err();
    assert_eq!(error, StorageError::Connection("unable to open database file".to_string()));
    assert_eq!(error.message(), "unable to open database file");
}

#[test]
fn a_failed_migration_is_a_migration_error() {
    let db = Database::new("sqlite:data/oxprint.db", 5).connect(Ok(())).unwrap();
    let error = db.run_migration(Err("migration 3 failed".to_string())).unwrap_err();
    assert_eq!(error, StorageError::Migration("migration 3 failed".to_string()));
    assert_eq!(error.message(), "migration 3 failed");
}

#[test]
fn a_directory_error_says_what_could_not_be_done() {
    let db = Database::new("sqlite:data/oxprint.db", 5);
    assert_eq!(db.directory_created(Ok(())), Ok(()));
    let error = db.directory_created(Err("permission denied".to_string())).unwrap_err();
    assert_eq!(error, StorageError::Directory("permission denied".to_string()));
    assert_eq!(error.message(), "Failed to create database directory: permission denied");
}

#[test]
fn a_failed_probe_is_a_probe_error_and_leaves_the_handle() {
    let db = Database::new("sqlite:x.db", 5).connect(Ok(())).unwrap().run_migration(Ok(())).unwrap();
    assert_eq!(db.health_check(Ok(())), Ok(()));
    let error = db.health_check(Err("database is locked".to_string())).unwrap_err();
    assert_eq!(error, StorageError::Probe("database is locked".to_string()));
    assert!(db.is_ready());
    assert_eq!(db.health_check(Ok(())), Ok(()));
}

#[test]
fn storage_errors_are_reported_as_database_errors() {
    let errors = [
        StorageError::Directory("a".to_string()),
        StorageError::Connection("b".to_string()),
        StorageError::Migration("c".to_string()),
        StorageError::Probe("d".to_string()),
    ];
    for error in errors {
        let reported = error.into_app_error();
        assert_eq!(reported, AppError::Database(error.message()));
        assert_eq!(reported.kind(), ErrorKind::Database);
        assert_eq!(reported.into_response().status, 500);
    }
}

#[test]
fn only_a_migrated_handle_makes_the_shared_state() {
    let settings = Settings::defaults(&vec![("JWT_SECRET".to_string(), "abc".to_string())]);
    let disconnected = Database::new("sqlite:x.db", 5);
    assert!(AppState::new(disconnected.clone(), settings.clone()).is_none());
    let connected = disconnected.connect(Ok(())).unwrap();
    assert!(AppState::new(connected.clone(), settings.clone()).is_none());
    let migrated = connected.run_migration(Ok(())).unwrap();
    let state = AppState::new(migrated.clone(), settings.clone()).unwrap();
    assert_eq!(state.database(), &migrated);
    assert_eq!(state.settings(), &settings);
}

#[test]
fn a_configuration_without_a_usable_secret_makes_no_shared_state() {
    let migrated =
        Database::new("sqlite:x.db", 5).connect(Ok(())).unwrap().run_migration(Ok(())).unwrap();
    let placeholder = Settings::defaults(&Vec::new());
    assert!(AppState::new(migrated.clone(), placeholder).is_none());
    let empty = Settings::defaults(&vec![("JWT_SECRET".to_string(), String::new())]);
    assert!(AppState::new(migrated, empty).is_none());
}
