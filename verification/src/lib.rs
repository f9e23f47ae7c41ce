//! Verified core of `ign`, a manager for `.gitignore` files built from the
//! github/gitignore template collection.

pub mod cli;
pub mod commands;
pub mod errors;
pub mod fuzzy;
pub mod interactive;
pub mod laws;
pub mod laws_alias;
pub mod laws_lookup;
pub mod models;
pub mod repo;
pub mod sorting;
pub mod sync;
pub mod text;

pub use cli::Cli;
pub use models::{AppliedGitignore, GitignoreStatus, TemplateCategory, TemplateInfo};
pub use repo::GitignoreRepo;
