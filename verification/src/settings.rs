//! Configuration: built-in defaults, layers that override them field by
//! field, and the checks a configuration passes before it is used.
//!
//! Resolution starts from the defaults, which read three plain environment
//! variables, then applies the optional file layer and then the layer of
//! namespaced environment overrides. A field that a layer leaves unset keeps
//! the value it had. The resolved configuration is refused when its secret is
//! empty or still the placeholder; otherwise the upload directory and then the
//! static directory are created, and the first failure ends the load.

use vstd::prelude::*;
use crate::text::{concat2, failure_of, parse_u32, parsed_u32, same_text};

verus! {

/// Storage settings.
#[derive(Debug, Clone, PartialEq, Eq)]
pub struct DatabaseSettings {
    pub url: String,
    pub max_connections: u32,
}

/// Network settings.
#[derive(Debug, Clone, PartialEq, Eq)]
pub struct ServerSettings {
    pub host: String,
    pub port: u16,
    pub static_dir: String,
}

/// File upload policy.
#[derive(Debug, Clone, PartialEq, Eq)]
pub struct FileSettings {
    pub upload_dir: String,
    /// In bytes.
    pub max_file_size: u64,
    pub allowed_extensions: Vec<String>,
}

/// Device link defaults.
#[derive(Debug, Clone, Copy, PartialEq, Eq)]
pub struct PrinterSettings {
    pub default_baud_rate: u32,
    /// In seconds.
    pub connection_timeout: u64,
    /// In seconds.
    pub command_timeout: u64,
}

/// A configuration snapshot.
#[derive(Debug, Clone, PartialEq, Eq)]
pub struct Settings {
    pub database: DatabaseSettings,
    pub server: ServerSettings,
    pub file: FileSettings,
    pub printer: PrinterSettings,
    pub jwt_secret: String,
}

/// What a layer sets: `None` leaves a field as it was.
#[derive(Debug, Clone, PartialEq, Eq)]
pub struct SettingsLayer {
    pub database_url: Option<String>,
    pub database_max_connections: Option<u32>,
    pub server_host: Option<String>,
    pub server_port: Option<u16>,
    pub server_static_dir: Option<String>,
    pub file_upload_dir: Option<String>,
    pub file_max_file_size: Option<u64>,
    pub file_allowed_extensions: Option<Vec<String>>,
    pub printer_default_baud_rate: Option<u32>,
    pub printer_connection_timeout: Option<u64>,
    pub printer_command_timeout: Option<u64>,
    pub jwt_secret: Option<String>,
}

/// A directory that must exist before the configuration is used.
#[derive(Debug, Clone, Copy, PartialEq, Eq, Structural)]
pub enum Directory {
    Upload,
    Static,
}

/// Why a configuration could not be loaded.
#[derive(Debug, Clone, PartialEq, Eq)]
pub enum ConfigError {
    /// The secret is empty or still the placeholder.
    MissingSecret,
    /// A directory could not be created.
    IoFailure { directory: Directory, cause: String },
}

/// How far a load has come.
#[derive(Debug, Clone, PartialEq, Eq)]
pub enum LoadState {
    /// The configuration passed the secret check; `directory` is to be
    /// created next.
    Creating { directory: Directory, settings: Settings },
    /// Both directories exist: the snapshot is usable.
    Ready(Settings),
    /// The load has failed for good.
    Failed(ConfigError),
}

/// The storage settings as values.
pub struct DatabaseSettingsView {
    pub url: Seq<char>,
    pub max_connections: u32,
}

/// The network settings as values.
pub struct ServerSettingsView {
    pub host: Seq<char>,
    pub port: u16,
    pub static_dir: Seq<char>,
}

/// The file upload policy as values.
pub struct FileSettingsView {
    pub upload_dir: Seq<char>,
    pub max_file_size: u64,
    pub allowed_extensions: Seq<Seq<char>>,
}

/// A configuration snapshot as values.
pub struct SettingsView {
    pub database: DatabaseSettingsView,
    pub server: ServerSettingsView,
    pub file: FileSettingsView,
    pub printer: PrinterSettings,
    pub jwt_secret: Seq<char>,
}

/// What a layer sets, as values.
pub struct SettingsLayerView {
    pub database_url: Option<Seq<char>>,
    pub database_max_connections: Option<u32>,
    pub server_host: Option<Seq<char>>,
    pub server_port: Option<u16>,
    pub server_static_dir: Option<Seq<char>>,
    pub file_upload_dir: Option<Seq<char>>,
    pub file_max_file_size: Option<u64>,
    pub file_allowed_extensions: Option<Seq<Seq<char>>>,
    pub printer_default_baud_rate: Option<u32>,
    pub printer_connection_timeout: Option<u64>,
    pub printer_command_timeout: Option<u64>,
    pub jwt_secret: Option<Seq<char>>,
}

/// A load error as values.
pub enum ConfigErrorView {
    MissingSecret,
    IoFailure { directory: Directory, cause: Seq<char> },
}

/// The state of a load as values.
pub enum LoadStateView {
    Creating { directory: Directory, settings: SettingsView },
    Ready(SettingsView),
    Failed(ConfigErrorView),
}

impl View for DatabaseSettings {
    type V = DatabaseSettingsView;

    open spec fn view(&self) -> DatabaseSettingsView {
        DatabaseSettingsView { url: self.url@, max_connections: self.max_connections }
    }
}

impl View for ServerSettings {
    type V = ServerSettingsView;

    open spec fn view(&self) -> ServerSettingsView {
        ServerSettingsView { host: self.host@, port: self.port, static_dir: self.static_dir@ }
    }
}

impl View for FileSettings {
    type V = FileSettingsView;

    open spec fn view(&self) -> FileSettingsView {
        FileSettingsView {
            upload_dir: self.upload_dir@,
            max_file_size: self.max_file_size,
            allowed_extensions: self.allowed_extensions.deep_view(),
        }
    }
}

impl View for Settings {
    type V = SettingsView;

    open spec fn view(&self) -> SettingsView {
        SettingsView {
            database: self.database@,
            server: self.server@,
            file: self.file@,
            printer: self.printer,
            jwt_secret: self.jwt_secret@,
        }
    }
}

impl View for SettingsLayer {
    type V = SettingsLayerView;

    open spec fn view(&self) -> SettingsLayerView {
        SettingsLayerView {
            database_url: self.database_url.deep_view(),
            database_max_connections: self.database_max_connections,
            server_host: self.server_host.deep_view(),
            server_port: self.server_port,
            server_static_dir: self.server_static_dir.deep_view(),
            file_upload_dir: self.file_upload_dir.deep_view(),
            file_max_file_size: self.file_max_file_size,
            file_allowed_extensions: self.file_allowed_extensions.deep_view(),
            printer_default_baud_rate: self.printer_default_baud_rate,
            printer_connection_timeout: self.printer_connection_timeout,
            printer_command_timeout: self.printer_command_timeout,
            jwt_secret: self.jwt_secret.deep_view(),
        }
    }
}

impl View for ConfigError {
    type V = ConfigErrorView;

    open spec fn view(&self) -> ConfigErrorView {
        match self {
            ConfigError::MissingSecret => ConfigErrorView::MissingSecret,
            ConfigError::IoFailure { directory, cause } => ConfigErrorView::IoFailure {
                directory: *directory,
                cause: cause@,
            },
        }
    }
}

impl View for LoadState {
    type V = LoadStateView;

    open spec fn view(&self) -> LoadStateView {
        match self {
            LoadState::Creating { directory, settings } => LoadStateView::Creating {
                directory: *directory,
                settings: settings@,
            },
            LoadState::Ready(settings) => LoadStateView::Ready(settings@),
            LoadState::Failed(error) => LoadStateView::Failed(error@),
        }
    }
}

/// The value of the first variable called `name` in `env`.
pub open spec fn env_value(env: Seq<(Seq<char>, Seq<char>)>, name: Seq<char>) -> Option<
    Seq<char>,
>
    decreases env.len(),
{
    if env.len() == 0 {
        None
    } else if env[0].0 == name {
        Some(env[0].1)
    } else {
        env_value(env.skip(1), name)
    }
}

/// The storage defaults: `DATABASE_URL`, else a database file under `data`;
/// `DATABASE_MAX_CONNECTIONS` where it is a decimal `u32`, else 5.
pub open spec fn default_database(env: Seq<(Seq<char>, Seq<char>)>) -> DatabaseSettingsView {
    DatabaseSettingsView {
        url: match env_value(env, "DATABASE_URL"@) {
            Some(url) => url,
            None => "sqlite:data/oxprint.db"@,
        },
        max_connections: match env_value(env, "DATABASE_MAX_CONNECTIONS"@) {
            Some(text) => match parsed_u32(text) {
                Some(limit) => limit,
                None => 5,
            },
            None => 5,
        },
    }
}

/// The built-in defaults. The secret is `JWT_SECRET`, else the placeholder.
pub open spec fn default_settings(env: Seq<(Seq<char>, Seq<char>)>) -> SettingsView {
    SettingsView {
        database: default_database(env),
        server: ServerSettingsView { host: "127.0.0.1"@, port: 3000, static_dir: "static"@ },
        file: FileSettingsView {
            upload_dir: "uploads"@,
            max_file_size: 104857600,
            allowed_extensions: seq!["gcode"@, "gco"@, "g"@],
        },
        printer: PrinterSettings {
            default_baud_rate: 115200,
            connection_timeout: 10,
            command_timeout: 5,
        },
        jwt_secret: match env_value(env, "JWT_SECRET"@) {
            Some(secret) => secret,
            None => "CHANGE_ME_IN_PRODUCTION"@,
        },
    }
}

/// `layer` over `base`: what the layer sets, and `base` in every other field.
pub open spec fn overlaid(base: SettingsView, layer: SettingsLayerView) -> SettingsView {
    SettingsView {
        database: DatabaseSettingsView {
            url: layer.database_url.unwrap_or(base.database.url),
            max_connections: layer.database_max_connections.unwrap_or(
                base.database.max_connections,
            ),
        },
        server: ServerSettingsView {
            host: layer.server_host.unwrap_or(base.server.host),
            port: layer.server_port.unwrap_or(base.server.port),
            static_dir: layer.server_static_dir.unwrap_or(base.server.static_dir),
        },
        file: FileSettingsView {
            upload_dir: layer.file_upload_dir.unwrap_or(base.file.upload_dir),
            max_file_size: layer.file_max_file_size.unwrap_or(base.file.max_file_size),
            allowed_extensions: layer.file_allowed_extensions.unwrap_or(
                base.file.allowed_extensions,
            ),
        },
        printer: PrinterSettings {
            default_baud_rate: layer.printer_default_baud_rate.unwrap_or(
                base.printer.default_baud_rate,
            ),
            connection_timeout: layer.printer_connection_timeout.unwrap_or(
                base.printer.connection_timeout,
            ),
            command_timeout: layer.printer_command_timeout.unwrap_or(
                base.printer.command_timeout,
            ),
        },
        jwt_secret: layer.jwt_secret.unwrap_or(base.jwt_secret),
    }
}

/// The configuration that the three sources resolve to: the defaults, under
/// the file layer where there is one, under the environment overrides.
pub open spec fn resolved(
    env: Seq<(Seq<char>, Seq<char>)>,
    file: Option<SettingsLayerView>,
    overrides: SettingsLayerView,
) -> SettingsView {
    let below = match file {
        Some(layer) => overlaid(default_settings(env), layer),
        None => default_settings(env),
    };
    overlaid(below, overrides)
}

/// A secret that no configuration may run with: none, or the placeholder.
pub open spec fn secret_rejected(secret: Seq<char>) -> bool {
    secret.len() == 0 || secret == "CHANGE_ME_IN_PRODUCTION"@
}

/// Where a load stands once the sources are resolved and the secret checked.
pub open spec fn loaded(
    env: Seq<(Seq<char>, Seq<char>)>,
    file: Option<SettingsLayerView>,
    overrides: SettingsLayerView,
) -> LoadStateView {
    let settings = resolved(env, file, overrides);
    if secret_rejected(settings.jwt_secret) {
        LoadStateView::Failed(ConfigErrorView::MissingSecret)
    } else {
        LoadStateView::Creating { directory: Directory::Upload, settings }
    }
}

/// The directory that a load waits for.
pub open spec fn pending(state: LoadStateView) -> Option<Seq<char>> {
    match state {
        LoadStateView::Creating { directory: Directory::Upload, settings } => Some(
            settings.file.upload_dir,
        ),
        LoadStateView::Creating { directory: Directory::Static, settings } => Some(
            settings.server.static_dir,
        ),
        _ => None,
    }
}

/// The state after the pending directory was tried: `failure` is the cause
/// where it could not be created. The upload directory comes before the
/// static one; a load that is ready or has failed stays as it is.
pub open spec fn after_directory(state: LoadStateView, failure: Option<Seq<char>>) -> LoadStateView {
    match state {
        LoadStateView::Creating { directory, settings } => match failure {
            Some(cause) => LoadStateView::Failed(ConfigErrorView::IoFailure { directory, cause }),
            None => match directory {
                Directory::Upload => LoadStateView::Creating {
                    directory: Directory::Static,
                    settings,
                },
                Directory::Static => LoadStateView::Ready(settings),
            },
        },
        _ => state,
    }
}

/// The state after a run of directory outcomes, in order.
pub open spec fn after_directories(
    state: LoadStateView,
    failures: Seq<Option<Seq<char>>>,
) -> LoadStateView
    decreases failures.len(),
{
    if failures.len() == 0 {
        state
    } else {
        after_directories(after_directory(state, failures[0]), failures.skip(1))
    }
}

/// The words that tell an operator what went wrong.
pub open spec fn error_message(error: ConfigErrorView) -> Seq<char> {
    match error {
        ConfigErrorView::MissingSecret =>
            "JWT_SECRET environment variable is required. Generate one with: openssl rand -hex 32"@,
        ConfigErrorView::IoFailure { directory: Directory::Upload, cause } =>
            "Failed to create upload directory: "@ + cause,
        ConfigErrorView::IoFailure { directory: Directory::Static, cause } =>
            "Failed to create static directory: "@ + cause,
    }
}

/// Looks a variable up by name: the first entry of `env` with that name.
pub fn env_var(env: &Vec<(String, String)>, name: &str) -> (value: Option<String>)
    ensures
        value.deep_view() == env_value(env.deep_view(), name@),
{
    let mut i: usize = 0;
    proof {
        assert(env.deep_view().skip(0) =~= env.deep_view());
    }
    while i < env.len()
        invariant
            i <= env.len(),
            env_value(env.deep_view(), name@) == env_value(env.deep_view().skip(i as int), name@),
        decreases env.len() - i,
    {
        proof {
            let rest = env.deep_view().skip(i as int);
            assert(rest[0] == env@[i as int].deep_view());
            assert(rest.skip(1) =~= env.deep_view().skip(i + 1));
        }
        if same_text(env[i].0.as_str(), name) {
            return Some(env[i].1.clone());
        }
        i += 1;
    }
    None
}

impl DatabaseSettings {
    /// The storage defaults under the environment `env`.
    pub fn from_env(env: &Vec<(String, String)>) -> (settings: DatabaseSettings)
        ensures
            settings@ == default_database(env.deep_view()),
    {
        let url = match env_var(env, "DATABASE_URL") {
            Some(url) => url,
            None => "sqlite:data/oxprint.db".to_owned(),
        };
        let max_connections: u32 = match env_var(env, "DATABASE_MAX_CONNECTIONS") {
            Some(text) => match parse_u32(text.as_str()) {
                Some(limit) => limit,
                None => 5,
            },
            None => 5,
        };
        DatabaseSettings { url, max_connections }
    }
}

impl Settings {
    /// The built-in defaults under the environment `env`.
    pub fn defaults(env: &Vec<(String, String)>) -> (settings: Settings)
        ensures
            settings@ == default_settings(env.deep_view()),
    {
        let mut allowed_extensions: Vec<String> = Vec::new();
        allowed_extensions.push("gcode".to_owned());
        allowed_extensions.push("gco".to_owned());
        allowed_extensions.push("g".to_owned());
        proof {
            assert(allowed_extensions.deep_view() =~= seq!["gcode"@, "gco"@, "g"@]);
        }
        Settings {
            database: DatabaseSettings::from_env(env),
            server: ServerSettings {
                host: "127.0.0.1".to_owned(),
                port: 3000,
                static_dir: "static".to_owned(),
            },
            file: FileSettings {
                upload_dir: "uploads".to_owned(),
                max_file_size: 104857600,
                allowed_extensions,
            },
            printer: PrinterSettings {
                default_baud_rate: 115200,
                connection_timeout: 10,
                command_timeout: 5,
            },
            jwt_secret: match env_var(env, "JWT_SECRET") {
                Some(secret) => secret,
                None => "CHANGE_ME_IN_PRODUCTION".to_owned(),
            },
        }
    }

    /// Applies a layer: every field that it sets replaces the one held.
    pub fn apply(self, layer: SettingsLayer) -> (settings: Settings)
        ensures
            settings@ == overlaid(self@, layer@),
    {
        Settings {
            database: DatabaseSettings {
                url: match layer.database_url {
                    Some(url) => url,
                    None => self.database.url,
                },
                max_connections: match layer.database_max_connections {
                    Some(limit) => limit,
                    None => self.database.max_connections,
                },
            },
            server: ServerSettings {
                host: match layer.server_host {
                    Some(host) => host,
                    None => self.server.host,
                },
                port: match layer.server_port {
                    Some(port) => port,
                    None => self.server.port,
                },
                static_dir: match layer.server_static_dir {
                    Some(dir) => dir,
                    None => self.server.static_dir,
                },
            },
            file: FileSettings {
                upload_dir: match layer.file_upload_dir {
                    Some(dir) => dir,
                    None => self.file.upload_dir,
                },
                max_file_size: match layer.file_max_file_size {
                    Some(size) => size,
                    None => self.file.max_file_size,
                },
                allowed_extensions: match layer.file_allowed_extensions {
                    Some(extensions) => extensions,
                    None => self.file.allowed_extensions,
                },
            },
            printer: PrinterSettings {
                default_baud_rate: match layer.printer_default_baud_rate {
                    Some(rate) => rate,
                    None => self.printer.default_baud_rate,
                },
                connection_timeout: match layer.printer_connection_timeout {
                    Some(timeout) => timeout,
                    None => self.printer.connection_timeout,
                },
                command_timeout: match layer.printer_command_timeout {
                    Some(timeout) => timeout,
                    None => self.printer.command_timeout,
                },
            },
            jwt_secret: match layer.jwt_secret {
                Some(secret) => secret,
                None => self.jwt_secret,
            },
        }
    }

    /// Whether the secret is one a configuration may run with.
    pub fn has_usable_secret(&self) -> (usable: bool)
        ensures
            usable == !secret_rejected(self@.jwt_secret),
    {
        !self.jwt_secret.as_str().is_empty() && !same_text(
            self.jwt_secret.as_str(),
            "CHANGE_ME_IN_PRODUCTION",
        )
    }

    /// Resolves the configuration from the environment `env`, the file layer
    /// where there is one, and the environment overrides, and checks its
    /// secret. The load fails with `MissingSecret` exactly when the resolved
    /// secret is empty or the placeholder; otherwise it waits for the upload
    /// directory.
    pub fn load(
        env: &Vec<(String, String)>,
        file: Option<SettingsLayer>,
        overrides: SettingsLayer,
    ) -> (state: LoadState)
        ensures
            state@ == loaded(env.deep_view(), layer_view(file), overrides@),
    {
        let defaults = Settings::defaults(env);
        let below = match file {
            Some(layer) => defaults.apply(layer),
            None => defaults,
        };
        let settings = below.apply(overrides);
        if settings.has_usable_secret() {
            LoadState::Creating { directory: Directory::Upload, settings }
        } else {
            LoadState::Failed(ConfigError::MissingSecret)
        }
    }
}

/// What an optional layer sets.
pub open spec fn layer_view(file: Option<SettingsLayer>) -> Option<SettingsLayerView> {
    match file {
        Some(layer) => Some(layer@),
        None => None,
    }
}

impl SettingsLayer {
    /// The layer that sets nothing.
    pub fn empty() -> (layer: SettingsLayer)
        ensures
            layer@ == (SettingsLayerView {
                database_url: None,
                database_max_connections: None,
                server_host: None,
                server_port: None,
                server_static_dir: None,
                file_upload_dir: None,
                file_max_file_size: None,
                file_allowed_extensions: None,
                printer_default_baud_rate: None,
                printer_connection_timeout: None,
                printer_command_timeout: None,
                jwt_secret: None,
            }),
    {
        SettingsLayer {
            database_url: None,
            database_max_connections: None,
            server_host: None,
            server_port: None,
            server_static_dir: None,
            file_upload_dir: None,
            file_max_file_size: None,
            file_allowed_extensions: None,
            printer_default_baud_rate: None,
            printer_connection_timeout: None,
            printer_command_timeout: None,
            jwt_secret: None,
        }
    }
}

impl LoadState {
    /// The directory to create next, while the load waits for one.
    pub fn pending_directory(&self) -> (path: Option<String>)
        ensures
            path.deep_view() == pending(self@),
    {
        match self {
            LoadState::Creating { directory: Directory::Upload, settings } => Some(
                settings.file.upload_dir.clone(),
            ),
            LoadState::Creating { directory: Directory::Static, settings } => Some(
                settings.server.static_dir.clone(),
            ),
            _ => None,
        }
    }

    /// Takes the outcome of creating the pending directory. A failure ends
    /// the load with `IoFailure` for that directory and the cause given; a
    /// success moves on to the static directory, and after it to `Ready`.
    pub fn directory_result(self, outcome: Result<(), String>) -> (next: LoadState)
        ensures
            next@ == after_directory(self@, failure_of(outcome)),
    {
        match self {
            LoadState::Creating { directory, settings } => match outcome {
                Err(cause) => LoadState::Failed(ConfigError::IoFailure { directory, cause }),
                Ok(_) => match directory {
                    Directory::Upload => LoadState::Creating {
                        directory: Directory::Static,
                        settings,
                    },
                    Directory::Static => LoadState::Ready(settings),
                },
            },
            LoadState::Ready(settings) => LoadState::Ready(settings),
            LoadState::Failed(error) => LoadState::Failed(error),
        }
    }

    /// The end of the load: the snapshot or the error, and `None` while a
    /// directory is still pending.
    pub fn finish(self) -> (end: Option<Result<Settings, ConfigError>>)
        ensures
            match end {
                None => self@ is Creating,
                Some(Ok(settings)) => self@ == LoadStateView::Ready(settings@),
                Some(Err(error)) => self@ == LoadStateView::Failed(error@),
            },
    {
        match self {
            LoadState::Creating { .. } => None,
            LoadState::Ready(settings) => Some(Ok(settings)),
            LoadState::Failed(error) => Some(Err(error)),
        }
    }
}

impl ConfigError {
    /// The message for the operator.
    pub fn message(&self) -> (text: String)
        ensures
            text@ == error_message(self@),
    {
        match self {
            ConfigError::MissingSecret =>
                "JWT_SECRET environment variable is required. Generate one with: openssl rand -hex 32".to_owned(),
            ConfigError::IoFailure { directory: Directory::Upload, cause } => concat2(
                "Failed to create upload directory: ",
                cause.as_str(),
            ),
            ConfigError::IoFailure { directory: Directory::Static, cause } => concat2(
                "Failed to create static directory: ",
                cause.as_str(),
            ),
        }
    }
}

/// The value of a field under two layers: the later layer's where it sets
/// one, else the earlier layer's, else the default.
pub open spec fn layered<T>(later: Option<T>, earlier: Option<T>, default: T) -> T {
    match later {
        Some(value) => value,
        None => match earlier {
            Some(value) => value,
            None => default,
        },
    }
}

/// Later sources win, field by field: every field of the resolved
/// configuration is the environment override where there is one, else the
/// file layer's value where there is one, else the default.
pub proof fn lemma_later_layers_win(
    env: Seq<(Seq<char>, Seq<char>)>,
    file: SettingsLayerView,
    overrides: SettingsLayerView,
)
    ensures
        ({
            let base = default_settings(env);
            let end = resolved(env, Some(file), overrides);
            &&& end.database.url == layered(
                overrides.database_url,
                file.database_url,
                base.database.url,
            )
            &&& end.database.max_connections == layered(
                overrides.database_max_connections,
                file.database_max_connections,
                base.database.max_connections,
            )
            &&& end.server.host == layered(overrides.server_host, file.server_host, base.server.host)
            &&& end.server.port == layered(overrides.server_port, file.server_port, base.server.port)
            &&& end.server.static_dir == layered(
                overrides.server_static_dir,
                file.server_static_dir,
                base.server.static_dir,
            )
            &&& end.file.upload_dir == layered(
                overrides.file_upload_dir,
                file.file_upload_dir,
                base.file.upload_dir,
            )
            &&& end.file.max_file_size == layered(
                overrides.file_max_file_size,
                file.file_max_file_size,
                base.file.max_file_size,
            )
            &&& end.file.allowed_extensions == layered(
                overrides.file_allowed_extensions,
                file.file_allowed_extensions,
                base.file.allowed_extensions,
            )
            &&& end.printer.default_baud_rate == layered(
                overrides.printer_default_baud_rate,
                file.printer_default_baud_rate,
                base.printer.default_baud_rate,
            )
            &&& end.printer.connection_timeout == layered(
                overrides.printer_connection_timeout,
                file.printer_connection_timeout,
                base.printer.connection_timeout,
            )
            &&& end.printer.command_timeout == layered(
                overrides.printer_command_timeout,
                file.printer_command_timeout,
                base.printer.command_timeout,
            )
            &&& end.jwt_secret == layered(overrides.jwt_secret, file.jwt_secret, base.jwt_secret)
        }),
{
}

/// A configuration whose resolved secret is empty or the placeholder never
/// loads: the load has failed with `MissingSecret`, and stays so whatever
/// happens to the directories.
pub proof fn lemma_rejected_secret_never_loads(
    env: Seq<(Seq<char>, Seq<char>)>,
    file: Option<SettingsLayerView>,
    overrides: SettingsLayerView,
    failures: Seq<Option<Seq<char>>>,
)
    requires
        secret_rejected(resolved(env, file, overrides).jwt_secret),
    ensures
        after_directories(loaded(env, file, overrides), failures) == LoadStateView::Failed(
            ConfigErrorView::MissingSecret,
        ),
{
    lemma_failed_stays_failed(ConfigErrorView::MissingSecret, failures);
}

/// A failed load stays failed, with the same error.
pub proof fn lemma_failed_stays_failed(error: ConfigErrorView, failures: Seq<Option<Seq<char>>>)
    ensures
        after_directories(LoadStateView::Failed(error), failures) == LoadStateView::Failed(error),
    decreases failures.len(),
{
    if failures.len() > 0 {
        lemma_failed_stays_failed(error, failures.skip(1));
    }
}

/// Where neither the environment nor a layer sets the secret, the resolved
/// secret is the placeholder, which is rejected.
pub proof fn lemma_missing_secret_is_rejected(
    env: Seq<(Seq<char>, Seq<char>)>,
    file: Option<SettingsLayerView>,
    overrides: SettingsLayerView,
)
    requires
        env_value(env, "JWT_SECRET"@) is None,
        file matches Some(layer) ==> layer.jwt_secret is None,
        overrides.jwt_secret is None,
    ensures
        secret_rejected(resolved(env, file, overrides).jwt_secret),
{
}

/// Loading is a function of its sources: two loads from the same environment
/// and overrides, with no file layer, stand at the same state with the same
/// fields, and stay equal under the same directory outcomes.
pub proof fn lemma_load_is_deterministic(
    env_a: Seq<(Seq<char>, Seq<char>)>,
    overrides_a: SettingsLayerView,
    env_b: Seq<(Seq<char>, Seq<char>)>,
    overrides_b: SettingsLayerView,
    failures: Seq<Option<Seq<char>>>,
)
    requires
        env_a == env_b,
        overrides_a == overrides_b,
    ensures
        resolved(env_a, None, overrides_a) == resolved(env_b, None, overrides_b),
        loaded(env_a, None, overrides_a) == loaded(env_b, None, overrides_b),
        after_directories(loaded(env_a, None, overrides_a), failures) == after_directories(
            loaded(env_b, None, overrides_b),
            failures,
        ),
{
}

/// A load reaches `Ready` exactly by a usable secret and two directories
/// created: after two outcomes it is ready with the resolved configuration
/// where the secret is usable and neither failed.
pub proof fn lemma_ready_after_both_directories(
    env: Seq<(Seq<char>, Seq<char>)>,
    file: Option<SettingsLayerView>,
    overrides: SettingsLayerView,
    upload: Option<Seq<char>>,
    statics: Option<Seq<char>>,
)
    ensures
        after_directories(loaded(env, file, overrides), seq![upload, statics])
            == if secret_rejected(resolved(env, file, overrides).jwt_secret) {
            LoadStateView::Failed(ConfigErrorView::MissingSecret)
        } else if upload is Some {
            LoadStateView::Failed(
                ConfigErrorView::IoFailure { directory: Directory::Upload, cause: upload.unwrap() },
            )
        } else if statics is Some {
            LoadStateView::Failed(
                ConfigErrorView::IoFailure { directory: Directory::Static, cause: statics.unwrap() },
            )
        } else {
            LoadStateView::Ready(resolved(env, file, overrides))
        },
{
    let both = seq![upload, statics];
    let start = loaded(env, file, overrides);
    let middle = after_directory(start, upload);
    let last = after_directory(middle, statics);
    assert(both.skip(1) =~= seq![statics]);
    assert(both.skip(1).skip(1) =~= Seq::<Option<Seq<char>>>::empty());
    assert(after_directories(last, both.skip(1).skip(1)) == last);
    assert(after_directories(middle, both.skip(1)) == last);
    assert(after_directories(start, both) == last);
}

} // verus!
