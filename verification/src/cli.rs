//! The command line of `ign`, as plain data.

use vstd::prelude::*;

use crate::models::TemplateCategory;

verus! {

/// A parsed command line.
#[derive(Debug)]
pub struct Cli {
    /// The subcommand.
    pub command: Commands,
    /// Output results in JSON format.
    pub json: bool,
}

/// The subcommands.
#[derive(Debug)]
pub enum Commands {
    /// Initialize a new .gitignore file with chosen templates.
    Init(InitArgs),
    /// Add one or more templates into an existing .gitignore.
    Add(AddArgs),
    /// Remove one or more templates from an existing .gitignore.
    Remove(RemoveArgs),
    /// List all available templates.
    List(ListArgs),
    /// Search templates with fuzzy matching and smart aliases.
    Search(SearchArgs),
    /// Show the raw content of a template.
    Show(ShowArgs),
    /// Show status and details of a .gitignore file.
    Status(StatusArgs),
    /// Manage the local template collection.
    Template(TemplateArgs),
    /// Update the local template collection from GitHub.
    Update,
}

/// Arguments of `template`.
#[derive(Debug)]
pub struct TemplateArgs {
    pub command: TemplateCommands,
}

/// Subcommands of `template`.
#[derive(Debug, Clone, Copy, PartialEq, Eq, Structural)]
pub enum TemplateCommands {
    /// Clone the template collection from GitHub.
    Init,
    /// Update the template collection from GitHub.
    Update,
    /// Show where the template collection is stored.
    Path,
    /// Show the state of the template collection.
    Status,
}

/// Arguments of `init`.
#[derive(Debug)]
pub struct InitArgs {
    /// Template names to apply.
    pub templates: Vec<String>,
    /// Pick templates from an interactive menu.
    pub interactive: bool,
    /// Overwrite the file without keeping its content.
    pub force: bool,
    /// Target file (`.gitignore` by default).
    pub output: String,
}

/// Arguments of `add`.
#[derive(Debug)]
pub struct AddArgs {
    /// Template names to add.
    pub templates: Vec<String>,
    /// Pick templates from an interactive menu.
    pub interactive: bool,
    /// Target file (`.gitignore` by default).
    pub path: String,
}

/// Arguments of `remove`.
#[derive(Debug)]
pub struct RemoveArgs {
    /// Template names to remove.
    pub templates: Vec<String>,
    /// Target file (`.gitignore` by default).
    pub path: String,
}

/// Category filter of `list`.
#[derive(Debug, Clone, Copy, PartialEq, Eq, Structural)]
pub enum CategoryFilter {
    Language,
    Global,
    Community,
}

/// The category a filter selects.
pub open spec fn filter_category(f: CategoryFilter) -> TemplateCategory {
    match f {
        CategoryFilter::Language => TemplateCategory::Language,
        CategoryFilter::Global => TemplateCategory::Global,
        CategoryFilter::Community => TemplateCategory::Community,
    }
}

impl CategoryFilter {
    /// The category this filter selects.
    pub fn category(&self) -> (r: TemplateCategory)
        ensures
            r == filter_category(*self),
    {
        match self {
            CategoryFilter::Language => TemplateCategory::Language,
            CategoryFilter::Global => TemplateCategory::Global,
            CategoryFilter::Community => TemplateCategory::Community,
        }
    }
}

/// Arguments of `list`.
#[derive(Debug)]
pub struct ListArgs {
    /// Keep only this category.
    pub category: Option<CategoryFilter>,
    /// Keep only templates whose name or path contains this keyword, ignoring case.
    pub filter: Option<String>,
}

/// Arguments of `search`.
#[derive(Debug)]
pub struct SearchArgs {
    /// The query.
    pub query: String,
    /// Largest number of results to show (25 by default).
    pub limit: usize,
}

/// Arguments of `show`.
#[derive(Debug)]
pub struct ShowArgs {
    /// Template name or alias.
    pub template: String,
}

/// Arguments of `status`.
#[derive(Debug)]
pub struct StatusArgs {
    /// The .gitignore file to inspect (`.gitignore` by default).
    pub path: String,
}

} // verus!
