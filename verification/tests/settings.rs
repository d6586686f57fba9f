use oxprint_backend::settings::{
    env_var, ConfigError, DatabaseSettings, Directory, FileSettings, LoadState, PrinterSettings,
    ServerSettings, Settings, SettingsLayer,
};

fn env(pairs: &[(&str, &str)]) -> Vec<(String, String)> {
    pairs.iter().map(|(name, value)| (name.to_string(), value.to_string())).collect()
}

fn expected_defaults(secret: &str) -> Settings {
    Settings {
        database: DatabaseSettings { url: "sqlite:data/oxprint.db".to_string(), max_connections: 5 },
        server: ServerSettings {
            host: "127.0.0.1".to_string(),
            port: 3000,
            static_dir: "static".to_string(),
        },
        file: FileSettings {
            upload_dir: "uploads".to_string(),
            max_file_size: 104_857_600,
            allowed_extensions: vec!["gcode".to_string(), "gco".to_string(), "g".to_string()],
        },
        printer: PrinterSettings {
            default_baud_rate: 115_200,
            connection_timeout: 10,
            command_timeout: 5,
        },
        jwt_secret: secret.to_string(),
    }
}

fn finish(mut state: LoadState, outcomes: &[Result<(), String>]) -> LoadState {
    for outcome in outcomes {
        state = state.directory_result(outcome.clone());
    }
    state
}

#[test]
fn env_var_gives_the_first_entry_of_a_name() {
    let vars = env(&[("A", "1"), ("B", "2"), ("A", "3")]);
    assert_eq!(env_var(&vars, "A"), Some("1".to_string()));
    assert_eq!(env_var(&vars, "B"), Some("2".to_string()));
    assert_eq!(env_var(&vars, "C"), None);
    assert_eq!(env_var(&vars, "a"), None);
    assert_eq!(env_var(&Vec::new(), "A"), None);
}

#[test]
fn database_settings_default_without_environment() {
    let settings = DatabaseSettings::from_env(&Vec::new());
    assert_eq!(settings.url, "sqlite:data/oxprint.db");
    assert_eq!(settings.max_connections, 5);
}

#[test]
fn database_settings_read_the_environment() {
    let vars = env(&[("DATABASE_URL", "sqlite:/var/db/x.db"), ("DATABASE_MAX_CONNECTIONS", "12")]);
    let settings = DatabaseSettings::from_env(&vars);
    assert_eq!(settings.url, "sqlite:/var/db/x.db");
    assert_eq!(settings.max_connections, 12);
}

#[test]
fn database_settings_fall_back_on_a_limit_that_is_no_number() {
    for bad in ["", "many", "-1", "4294967296", " 3"] {
        let vars = env(&[("DATABASE_MAX_CONNECTIONS", bad)]);
        assert_eq!(DatabaseSettings::from_env(&vars).max_connections, 5, "limit {:?}", bad);
    }
}

#[test]
fn defaults_hold_the_built_in_values() {
    assert_eq!(Settings::defaults(&Vec::new()), expected_defaults("CHANGE_ME_IN_PRODUCTION"));
    assert_eq!(Settings::defaults(&env(&[("JWT_SECRET", "abc")])), expected_defaults("abc"));
}

#[test]
fn a_layer_overrides_only_the_fields_it_sets() {
    let mut layer = SettingsLayer::empty();
    layer.server_port = Some(8080);
    layer.file_allowed_extensions = Some(vec!["stl".to_string()]);
    layer.printer_command_timeout = Some(9);
    let settings = expected_defaults("abc").apply(layer);
    let mut expected = expected_defaults("abc");
    expected.server.port = 8080;
    expected.file.allowed_extensions = vec!["stl".to_string()];
    expected.printer.command_timeout = 9;
    assert_eq!(settings, expected);
}

#[test]
fn a_full_layer_replaces_every_field() {
    let layer = SettingsLayer {
        database_url: Some("sqlite:a.db".to_string()),
        database_max_connections: Some(1),
        server_host: Some("0.0.0.0".to_string()),
        server_port: Some(1),
        server_static_dir: Some("www".to_string()),
        file_upload_dir: Some("in".to_string()),
        file_max_file_size: Some(2),
        file_allowed_extensions: Some(Vec::new()),
        printer_default_baud_rate: Some(3),
        printer_connection_timeout: Some(4),
        printer_command_timeout: Some(6),
        jwt_secret: Some("k".to_string()),
    };
    let settings = expected_defaults("abc").apply(layer);
    let expected = Settings {
        database: DatabaseSettings { url: "sqlite:a.db".to_string(), max_connections: 1 },
        server: ServerSettings { host: "0.0.0.0".to_string(), port: 1, static_dir: "www".to_string() },
        file: FileSettings {
            upload_dir: "in".to_string(),
            max_file_size: 2,
            allowed_extensions: Vec::new(),
        },
        printer: PrinterSettings { default_baud_rate: 3, connection_timeout: 4, command_timeout: 6 },
        jwt_secret: "k".to_string(),
    };
    assert_eq!(settings, expected);
}

#[test]
fn the_empty_layer_changes_nothing() {
    assert_eq!(expected_defaults("abc").apply(SettingsLayer::empty()), expected_defaults("abc"));
}

#[test]
fn environment_overrides_win_over_the_file_layer() {
    let mut file = SettingsLayer::empty();
    file.server_port = Some(8080);
    file.server_host = Some("0.0.0.0".to_string());
    let mut overrides = SettingsLayer::empty();
    overrides.server_port = Some(9090);
    let state = Settings::load(&env(&[("JWT_SECRET", "abc")]), Some(file), overrides);
    let mut expected = expected_defaults("abc");
    expected.server.host = "0.0.0.0".to_string();
    expected.server.port = 9090;
    assert_eq!(state, LoadState::Creating { directory: Directory::Upload, settings: expected });
}

#[test]
fn load_fails_without_a_secret() {
    let state = Settings::load(&Vec::new(), None, SettingsLayer::empty());
    assert_eq!(state, LoadState::Failed(ConfigError::MissingSecret));
    assert_eq!(state.pending_directory(), None);
    assert_eq!(state.finish(), Some(Err(ConfigError::MissingSecret)));
}

#[test]
fn load_fails_with_the_placeholder_or_an_empty_secret() {
    for secret in ["", "CHANGE_ME_IN_PRODUCTION"] {
        let state =
            Settings::load(&env(&[("JWT_SECRET", secret)]), None, SettingsLayer::empty());
        assert_eq!(state, LoadState::Failed(ConfigError::MissingSecret));
        let mut overrides = SettingsLayer::empty();
        overrides.jwt_secret = Some(secret.to_string());
        let state = Settings::load(&env(&[("JWT_SECRET", "good")]), None, overrides);
        assert_eq!(state, LoadState::Failed(ConfigError::MissingSecret));
    }
}

#[test]
fn a_failed_load_stays_failed_whatever_the_directories_do() {
    let state = Settings::load(&Vec::new(), None, SettingsLayer::empty());
    let end = finish(state, &[Ok(()), Ok(()), Err("x".to_string()), Ok(())]);
    assert_eq!(end.finish(), Some(Err(ConfigError::MissingSecret)));
}

#[test]
fn a_layer_can_supply_the_secret() {
    let mut file = SettingsLayer::empty();
    file.jwt_secret = Some("from-file".to_string());
    let state = Settings::load(&Vec::new(), Some(file), SettingsLayer::empty());
    assert_eq!(
        state,
        LoadState::Creating { directory: Directory::Upload, settings: expected_defaults("from-file") }
    );
}

#[test]
fn load_creates_the_upload_directory_then_the_static_directory() {
    let state = Settings::load(&env(&[("JWT_SECRET", "abc")]), None, SettingsLayer::empty());
    assert_eq!(state.pending_directory(), Some("uploads".to_string()));
    assert_eq!(state.clone().finish(), None);
    let state = state.directory_result(Ok(()));
    assert_eq!(state.pending_directory(), Some("static".to_string()));
    assert_eq!(state.clone().finish(), None);
    let state = state.directory_result(Ok(()));
    assert_eq!(state.pending_directory(), None);
    assert_eq!(state, LoadState::Ready(expected_defaults("abc")));
    assert_eq!(state.finish(), Some(Ok(expected_defaults("abc"))));
}

#[test]
fn a_directory_that_cannot_be_created_ends_the_load() {
    let start = Settings::load(&env(&[("JWT_SECRET", "abc")]), None, SettingsLayer::empty());
    let failed = start.clone().directory_result(Err("permission denied".to_string()));
    let error =
        ConfigError::IoFailure { directory: Directory::Upload, cause: "permission denied".to_string() };
    assert_eq!(failed, LoadState::Failed(error.clone()));
    assert_eq!(failed.pending_directory(), None);
    assert_eq!(error.message(), "Failed to create upload directory: permission denied");

    let failed = finish(start, &[Ok(()), Err("read-only".to_string())]);
    let error = ConfigError::IoFailure { directory: Directory::Static, cause: "read-only".to_string() };
    assert_eq!(failed, LoadState::Failed(error.clone()));
    assert_eq!(error.message(), "Failed to create static directory: read-only");
    assert_eq!(failed.directory_result(Ok(())), LoadState::Failed(error));
}

#[test]
fn a_ready_load_stays_ready() {
    let start = Settings::load(&env(&[("JWT_SECRET", "abc")]), None, SettingsLayer::empty());
    let ready = finish(start, &[Ok(()), Ok(())]);
    let again = ready.clone().directory_result(Err("late".to_string()));
    assert_eq!(again, ready);
}

#[test]
fn the_missing_secret_message_tells_how_to_make_one() {
    assert_eq!(
        ConfigError::MissingSecret.message(),
        "JWT_SECRET environment variable is required. Generate one with: openssl rand -hex 32"
    );
}

#[test]
fn two_loads_of_one_environment_are_identical() {
    let vars = env(&[
        ("JWT_SECRET", "abc"),
        ("DATABASE_URL", "sqlite:x.db"),
        ("DATABASE_MAX_CONNECTIONS", "3"),
    ]);
    let mut overrides = SettingsLayer::empty();
    overrides.server_port = Some(4000);
    let first = finish(Settings::load(&vars, None, overrides.clone()), &[Ok(()), Ok(())]);
    let second = finish(Settings::load(&vars.clone(), None, overrides), &[Ok(()), Ok(())]);
    assert_eq!(first, second);
    let mut expected = expected_defaults("abc");
    expected.database = DatabaseSettings { url: "sqlite:x.db".to_string(), max_connections: 3 };
    expected.server.port = 4000;
    assert_eq!(first.finish(), Some(Ok(expected)));
}

#[test]
fn has_usable_secret_rejects_only_the_two() {
    assert!(expected_defaults("abc").has_usable_secret());
    assert!(expected_defaults("change_me_in_production").has_usable_secret());
    assert!(!expected_defaults("").has_usable_secret());
    assert!(!expected_defaults("CHANGE_ME_IN_PRODUCTION").has_usable_secret());
}
