//! The data the library works on: template categories, template records and
//! the summaries of an applied `.gitignore`.

use std::collections::HashMap;
use vstd::prelude::*;

use crate::text::{chars_of, has_prefix, replace_char, replace_chars, starts_with};

verus! {

/// Category of a template in the github/gitignore collection.
#[derive(Debug, Clone, Copy, PartialEq, Eq, Structural, Hash)]
pub enum TemplateCategory {
    Language,
    Global,
    Community,
}

/// Display name of a category.
pub open spec fn category_name(c: TemplateCategory) -> Seq<char> {
    match c {
        TemplateCategory::Language => "Language"@,
        TemplateCategory::Global => "Global"@,
        TemplateCategory::Community => "Community"@,
    }
}

/// Position of a category in listings: languages, then global, then community.
pub open spec fn category_rank(c: TemplateCategory) -> int {
    match c {
        TemplateCategory::Language => 0,
        TemplateCategory::Global => 1,
        TemplateCategory::Community => 2,
    }
}

/// Category of a template from its path inside the collection, with `\` read as `/`.
pub open spec fn category_of_path(p: Seq<char>) -> TemplateCategory {
    let n = replace_char(p, '\\', '/');
    if has_prefix(n, "Global/"@) || has_prefix(n, "global/"@) {
        TemplateCategory::Global
    } else if has_prefix(n, "community/"@) || has_prefix(n, "Community/"@) {
        TemplateCategory::Community
    } else {
        TemplateCategory::Language
    }
}

impl TemplateCategory {
    /// The category's display name.
    pub fn as_str(&self) -> (r: &'static str)
        ensures
            r@ == category_name(*self),
    {
        match self {
            TemplateCategory::Language => "Language",
            TemplateCategory::Global => "Global",
            TemplateCategory::Community => "Community",
        }
    }

    /// The category's position in listings.
    pub fn rank(&self) -> (r: u8)
        ensures
            r == category_rank(*self),
    {
        match self {
            TemplateCategory::Language => 0,
            TemplateCategory::Global => 1,
            TemplateCategory::Community => 2,
        }
    }

    /// Determine the category from a relative path in the github/gitignore collection.
    pub fn from_relative_path(path: &str) -> (r: Self)
        ensures
            r == category_of_path(path@),
    {
        let normalized = replace_chars(&chars_of(path), '\\', '/');
        if starts_with(&normalized, "Global/") || starts_with(&normalized, "global/") {
            TemplateCategory::Global
        } else if starts_with(&normalized, "community/") || starts_with(&normalized, "Community/") {
            TemplateCategory::Community
        } else {
            TemplateCategory::Language
        }
    }
}

/// Metadata and location of one template file.
#[derive(Debug)]
pub struct TemplateInfo {
    /// Display and query name, e.g. "Rust", "Global/macOS", "community/Elixir/Phoenix".
    pub name: String,
    /// Path of the template file in the local collection.
    pub path: String,
    /// Category of the template.
    pub category: TemplateCategory,
    /// Path relative to the collection root, e.g. "Global/macOS.gitignore".
    pub relative_path: String,
}

/// A template record as the specifications see it.
pub struct TemplateView {
    pub name: Seq<char>,
    pub path: Seq<char>,
    pub category: TemplateCategory,
    pub relative_path: Seq<char>,
}

impl View for TemplateInfo {
    type V = TemplateView;

    open spec fn view(&self) -> TemplateView {
        TemplateView {
            name: self.name@,
            path: self.path@,
            category: self.category,
            relative_path: self.relative_path@,
        }
    }
}

impl Clone for TemplateInfo {
    fn clone(&self) -> (r: Self)
        ensures
            r == *self,
    {
        TemplateInfo {
            name: self.name.clone(),
            path: self.path.clone(),
            category: self.category,
            relative_path: self.relative_path.clone(),
        }
    }
}


/// A UTC point in time: seconds since the Unix epoch and the nanoseconds within that second.
#[derive(Debug, Clone, Copy, PartialEq, Eq, Structural)]
pub struct Timestamp {
    pub secs: i64,
    pub nanos: u32,
}

/// An applied `.gitignore`: the templates it holds and what surrounds them.
#[derive(Debug)]
pub struct AppliedGitignore {
    /// Template names, in file order.
    pub templates: Vec<String>,
    /// When the file was first written by ign.
    pub created_at: Option<Timestamp>,
    /// When the file was last written by ign.
    pub updated_at: Option<Timestamp>,
    /// Custom rules, or unmanaged content that was already there.
    pub custom_content: Option<String>,
    /// Content of each template block, by template name.
    pub template_blocks: HashMap<String, String>,
}

impl Default for AppliedGitignore {
    fn default() -> (r: Self)
        ensures
            r.templates@.len() == 0,
            r.created_at is None,
            r.updated_at is None,
            r.custom_content is None,
            r.template_blocks@ == Map::<String, String>::empty(),
    {
        AppliedGitignore {
            templates: Vec::new(),
            created_at: None,
            updated_at: None,
            custom_content: None,
            template_blocks: HashMap::new(),
        }
    }
}

/// Summary of a `.gitignore` file, as `status` reports it.
#[derive(Debug)]
pub struct GitignoreStatus {
    pub file_exists: bool,
    pub path: String,
    pub managed_by_ign: bool,
    pub templates_count: usize,
    pub templates: Vec<String>,
    pub created_at: Option<Timestamp>,
    pub updated_at: Option<Timestamp>,
    pub has_custom_rules: bool,
    pub custom_rules_lines: usize,
    pub custom_rules: Option<String>,
    pub total_lines: usize,
}

} // verus!
