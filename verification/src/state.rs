//! The state that every request handler reads.

use vstd::prelude::*;
use crate::database::{Database, StorageState};
use crate::settings::{secret_rejected, Settings};

verus! {

/// The storage handle and the configuration snapshot, put together once at
/// startup and only read afterwards. It is shared by reference, never copied.
#[derive(Debug)]
pub struct AppState {
    database: Database,
    settings: Settings,
}

/// What a state may be made of: a handle whose migrations have been applied,
/// and a configuration whose secret is usable.
pub open spec fn usable(database: Database, settings: Settings) -> bool {
    database@.state == StorageState::MigrationsApplied && !secret_rejected(settings@.jwt_secret)
}

impl AppState {
    /// The storage handle.
    pub closed spec fn database_of(&self) -> Database {
        self.database
    }

    /// The configuration snapshot.
    pub closed spec fn settings_of(&self) -> Settings {
        self.settings
    }

    /// Every state holds a migrated handle and a usable secret.
    #[verifier::type_invariant]
    spec fn well_formed(&self) -> bool {
        usable(self.database, self.settings)
    }

    /// Puts the state together. Only a handle whose migrations have been
    /// applied is taken, and only a configuration whose secret is neither
    /// empty nor the placeholder: anything else gives `None`.
    pub fn new(database: Database, settings: Settings) -> (state: Option<AppState>)
        ensures
            state is Some <==> usable(database, settings),
            state matches Some(s) ==> s.database_of() == database && s.settings_of() == settings,
    {
        if database.is_ready() && settings.has_usable_secret() {
            Some(AppState { database, settings })
        } else {
            None
        }
    }

    /// The storage handle, with its migrations applied.
    pub fn database(&self) -> (database: &Database)
        ensures
            *database == self.database_of(),
            database@.state == StorageState::MigrationsApplied,
    {
        proof {
            use_type_invariant(self);
        }
        &self.database
    }

    /// The configuration snapshot, with a usable secret.
    pub fn settings(&self) -> (settings: &Settings)
        ensures
            *settings == self.settings_of(),
            !secret_rejected(settings@.jwt_secret),
    {
        proof {
            use_type_invariant(self);
        }
        &self.settings
    }
}

} // verus!
