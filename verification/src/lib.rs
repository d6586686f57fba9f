//! Verified core of the OxPrint backend: configuration resolution, storage
//! lifecycle, static asset serving and the error taxonomy.

pub mod clock;
pub mod database;
pub mod errors;
pub mod json;
pub mod paths;
pub mod response;
pub mod settings;
pub mod state;
pub mod static_files;
pub mod system;
pub mod text;
