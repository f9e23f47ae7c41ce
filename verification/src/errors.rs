//! Errors of the library and the text each one is reported with.

use vstd::prelude::*;

use crate::text::push_char;

verus! {

/// Errors of template lookup and of the collection's maintenance.
#[derive(Debug)]
pub enum RepoError {
    /// The collection at `dir` is missing, not a git checkout, or holds no template.
    NotInitialized { dir: String },
    /// No template answers `query`.
    TemplateNotFound { query: String },
    /// `git --version` did not succeed.
    GitNotFound,
    /// The parent directory of the collection could not be created; `parent` is its
    /// quoted rendering.
    CreateParentFailed { parent: String },
    /// `git clone` could not be started.
    CloneNotRun,
    /// `git clone` ended with a failure status.
    CloneFailed { code: Option<i32>, stderr: String },
    /// `git pull` could not be started.
    PullNotRun,
    /// `git fetch` could not be started.
    FetchNotRun,
    /// `git fetch` ended with a failure status.
    FetchFailed { stderr: String },
    /// `git reset` could not be started.
    ResetNotRun,
}


/// The decimal digits of `n`.
pub open spec fn decimal_digits(n: nat) -> Seq<char>
    decreases n,
{
    if n < 10 {
        seq![(48 + n) as char]
    } else {
        decimal_digits(n / 10).push((48 + n % 10) as char)
    }
}

/// `n` in decimal, with a leading `-` when negative.
pub open spec fn decimal_text(n: int) -> Seq<char> {
    if n < 0 {
        seq!['-'] + decimal_digits((-n) as nat)
    } else {
        decimal_digits(n as nat)
    }
}

/// The debug rendering of an optional exit code: `Some(<decimal>)` or `None`.
pub open spec fn code_text(code: Option<i32>) -> Seq<char> {
    match code {
        Some(c) => "Some("@ + decimal_text(c as int) + ")"@,
        None => "None"@,
    }
}

/// The text an error is reported with.
pub open spec fn error_text(e: RepoError) -> Seq<char> {
    match e {
        RepoError::NotInitialized { dir } => "Template library is not initialized or empty at '"@ + dir@
            + "'.\nPlease run `ign template init` (or `ign update`) to clone templates from GitHub."@,
        RepoError::TemplateNotFound { query } => "Template '"@ + query@ + "' not found. Run `ign search "@
            + query@ + "` or `ign list` to view available templates."@,
        RepoError::GitNotFound =>
            "Git executable was not found on your system. Please install Git and make sure it is in your PATH."@,
        RepoError::CreateParentFailed { parent } => "Failed to create parent directory for templates: "@
            + parent@,
        RepoError::CloneNotRun =>
            "Failed to execute `git clone` command. Please verify `git` is installed and available in PATH."@,
        RepoError::CloneFailed { code, stderr } => "Failed to clone GitHub gitignore repository (exit code: "@
            + code_text(code) + "):\n"@ + stderr@
            + "\n\nPlease check your network connection or configure a proxy if needed."@,
        RepoError::PullNotRun => "Failed to execute `git pull` in templates directory"@,
        RepoError::FetchNotRun => "Failed to execute `git fetch` in templates directory"@,
        RepoError::FetchFailed { stderr } => "Failed to fetch updates from GitHub gitignore repository:\n"@
            + stderr@,
        RepoError::ResetNotRun => "Failed to execute `git reset` in templates directory"@,
    }
}

/// The decimal digits of `n`.
fn digits_of(n: u64) -> (r: String)
    ensures
        r@ == decimal_digits(n as nat),
    decreases n,
{
    if n < 10 {
        let mut s = String::new();
        push_char(&mut s, ((48 + n) as u8) as char);
        s
    } else {
        let mut s = digits_of(n / 10);
        push_char(&mut s, ((48 + n % 10) as u8) as char);
        s
    }
}

/// The debug rendering of an optional exit code.
pub fn code_string(code: Option<i32>) -> (r: String)
    ensures
        r@ == code_text(code),
{
    match code {
        Some(c) => {
            let mut s = String::from_str("Some(");
            if c < 0 {
                push_char(&mut s, '-');
                let mag: u64 = (-(c as i64)) as u64;
                s.append(digits_of(mag).as_str());
            } else {
                s.append(digits_of(c as u64).as_str());
            }
            s.append(")");
            s
        },
        None => String::from_str("None"),
    }
}

impl RepoError {
    /// The text this error is reported with.
    pub fn message(&self) -> (r: String)
        ensures
            r@ == error_text(*self),
    {
        match self {
            RepoError::NotInitialized { dir } => {
                let mut s = String::from_str("Template library is not initialized or empty at '");
                s.append(dir.as_str());
                s.append("'.\nPlease run `ign template init` (or `ign update`) to clone templates from GitHub.");
                s
            },
            RepoError::TemplateNotFound { query } => {
                let mut s = String::from_str("Template '");
                s.append(query.as_str());
                s.append("' not found. Run `ign search ");
                s.append(query.as_str());
                s.append("` or `ign list` to view available templates.");
                s
            },
            RepoError::GitNotFound => String::from_str(
                "Git executable was not found on your system. Please install Git and make sure it is in your PATH.",
            ),
            RepoError::CreateParentFailed { parent } => {
                let mut s = String::from_str("Failed to create parent directory for templates: ");
                s.append(parent.as_str());
                s
            },
            RepoError::CloneNotRun => String::from_str(
                "Failed to execute `git clone` command. Please verify `git` is installed and available in PATH.",
            ),
            RepoError::CloneFailed { code, stderr } => {
                let mut s = String::from_str("Failed to clone GitHub gitignore repository (exit code: ");
                s.append(code_string(*code).as_str());
                s.append("):\n");
                s.append(stderr.as_str());
                s.append("\n\nPlease check your network connection or configure a proxy if needed.");
                s
            },
            RepoError::PullNotRun => String::from_str("Failed to execute `git pull` in templates directory"),
            RepoError::FetchNotRun => String::from_str("Failed to execute `git fetch` in templates directory"),
            RepoError::FetchFailed { stderr } => {
                let mut s = String::from_str("Failed to fetch updates from GitHub gitignore repository:\n");
                s.append(stderr.as_str());
                s
            },
            RepoError::ResetNotRun => String::from_str("Failed to execute `git reset` in templates directory"),
        }
    }
}

} // verus!
