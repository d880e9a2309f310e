//! Calculates a project's next semantic version from its commit history.
pub mod config;
pub mod error;
pub mod manifest;
pub mod patterns;
pub mod release;
pub mod repogit;
pub mod repository;
pub mod runner;
pub mod semantic;
pub mod text;
pub mod version;

pub use runner::run;
pub use version::{get_next_version, get_version, VersionBumpBehavior};
