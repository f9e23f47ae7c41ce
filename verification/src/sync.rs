//! Decisions of fetching and updating the template collection with `git`.
//!
//! The commands themselves run outside the library: a `SyncJob` says which one
//! comes next, and is told what each one did.

use vstd::prelude::*;

use crate::errors::RepoError;
use crate::repo::GitignoreRepo;
use crate::text::{chars_of, string_of, trim_chars, trimmed};

verus! {

/// Address of the upstream template collection.
pub const GITHUB_GITIGNORE_REPO: &'static str = "https://github.com/github/gitignore.git";

/// How a finished job ended well.
#[derive(Debug, Clone, Copy, PartialEq, Eq, Structural)]
pub enum SyncOutcome {
    /// The collection was cloned.
    Initialized,
    /// `git pull --ff-only` succeeded.
    UpToDate,
    /// The collection was fetched and reset to the remote head.
    Updated,
}

/// The next thing to do.
#[derive(Debug)]
pub enum SyncAction {
    /// Run `git --version`; with `announce_init`, first report that the collection is
    /// not initialized and is being initialized.
    CheckGit { announce_init: bool },
    /// Create the parent directory of the collection, if it has one.
    PrepareParent,
    /// Remove the collection directory if it exists without a `.git` entry.
    ClearIncomplete,
    /// Run `git clone --depth=1 <url> <collection>` with terminal prompts off.
    Clone { url: String },
    /// Look whether the collection is ready.
    CheckCached,
    /// Run `git -C <collection> pull --ff-only`.
    Pull,
    /// Run `git -C <collection> fetch --depth=1 origin`.
    Fetch,
    /// Run `git -C <collection> reset --hard origin/HEAD`.
    ResetToHead,
    /// Run `git -C <collection> reset --hard origin/main`; its result does not matter.
    ResetToMain,
    /// The job succeeded.
    Done(SyncOutcome),
    /// The job failed.
    Fail(RepoError),
}

/// What a command did.
pub struct CommandOutcome {
    /// The command could be started.
    pub spawned: bool,
    /// It exited with a success status.
    pub success: bool,
    /// Its exit code, when it has one.
    pub code: Option<i32>,
    /// What it wrote to standard error.
    pub stderr: String,
}

/// What the last action found.
pub enum SyncEvent {
    /// `git --version` succeeded or not.
    GitProbed(bool),
    /// The parent directory is ready (`None`), or could not be created (`Some`, with its
    /// quoted rendering).
    ParentPrepared(Option<String>),
    /// The incomplete directory, if any, was removed.
    Cleared,
    /// The collection is ready or not.
    CacheChecked(bool),
    /// A git command ran.
    Ran(CommandOutcome),
}

/// Where a job stands.
#[derive(Debug, Clone, Copy, PartialEq, Eq, Structural)]
pub enum SyncStage {
    AwaitGit { updating: bool },
    AwaitCached,
    AwaitParent,
    AwaitClear,
    AwaitClone,
    AwaitPull,
    AwaitFetch,
    AwaitResetHead,
    AwaitResetMain,
    Finished,
}

/// A fetch or update of the template collection in progress.
#[derive(Debug)]
pub struct SyncJob {
    pub stage: SyncStage,
}

/// The event that answers the action of `stage`.
pub open spec fn answers(stage: SyncStage, event: SyncEvent) -> bool {
    match stage {
        SyncStage::AwaitGit { .. } => event is GitProbed,
        SyncStage::AwaitCached => event is CacheChecked,
        SyncStage::AwaitParent => event is ParentPrepared,
        SyncStage::AwaitClear => event is Cleared,
        SyncStage::AwaitClone | SyncStage::AwaitPull | SyncStage::AwaitFetch
        | SyncStage::AwaitResetHead | SyncStage::AwaitResetMain => event is Ran,
        SyncStage::Finished => false,
    }
}

/// The stage that follows `stage` on `event`.
pub open spec fn next_stage(stage: SyncStage, event: SyncEvent) -> SyncStage {
    match (stage, event) {
        (SyncStage::AwaitGit { updating }, SyncEvent::GitProbed(ok)) => if !ok {
            SyncStage::Finished
        } else if updating {
            SyncStage::AwaitCached
        } else {
            SyncStage::AwaitParent
        },
        (SyncStage::AwaitCached, SyncEvent::CacheChecked(cached)) => if cached {
            SyncStage::AwaitPull
        } else {
            SyncStage::AwaitGit { updating: false }
        },
        (SyncStage::AwaitParent, SyncEvent::ParentPrepared(failure)) => if failure is Some {
            SyncStage::Finished
        } else {
            SyncStage::AwaitClear
        },
        (SyncStage::AwaitClear, SyncEvent::Cleared) => SyncStage::AwaitClone,
        (SyncStage::AwaitPull, SyncEvent::Ran(o)) => if o.spawned && !o.success {
            SyncStage::AwaitFetch
        } else {
            SyncStage::Finished
        },
        (SyncStage::AwaitFetch, SyncEvent::Ran(o)) => if o.spawned && o.success {
            SyncStage::AwaitResetHead
        } else {
            SyncStage::Finished
        },
        (SyncStage::AwaitResetHead, SyncEvent::Ran(o)) => if o.spawned && !o.success {
            SyncStage::AwaitResetMain
        } else {
            SyncStage::Finished
        },
        _ => SyncStage::Finished,
    }
}

/// The action that `next_stage(stage, event)` waits on, or the job's end, stated by
/// the kind of action and the data it carries.
pub open spec fn action_fits(stage: SyncStage, event: SyncEvent, a: SyncAction) -> bool {
    match (stage, event) {
        (SyncStage::AwaitGit { updating }, SyncEvent::GitProbed(ok)) => if !ok {
            a matches SyncAction::Fail(RepoError::GitNotFound)
        } else if updating {
            a is CheckCached
        } else {
            a is PrepareParent
        },
        (SyncStage::AwaitCached, SyncEvent::CacheChecked(cached)) => if cached {
            a is Pull
        } else {
            a matches SyncAction::CheckGit { announce_init } && announce_init
        },
        (SyncStage::AwaitParent, SyncEvent::ParentPrepared(failure)) => match failure {
            Some(p) => a matches SyncAction::Fail(RepoError::CreateParentFailed { parent }) && parent@ == p@,
            None => a is ClearIncomplete,
        },
        (SyncStage::AwaitClear, SyncEvent::Cleared) =>
            a matches SyncAction::Clone { url } && url@ == GITHUB_GITIGNORE_REPO@,
        (SyncStage::AwaitClone, SyncEvent::Ran(o)) => if !o.spawned {
            a matches SyncAction::Fail(RepoError::CloneNotRun)
        } else if !o.success {
            a matches SyncAction::Fail(RepoError::CloneFailed { code, stderr }) && code == o.code
                && stderr@ == trimmed(o.stderr@)
        } else {
            a matches SyncAction::Done(SyncOutcome::Initialized)
        },
        (SyncStage::AwaitPull, SyncEvent::Ran(o)) => if !o.spawned {
            a matches SyncAction::Fail(RepoError::PullNotRun)
        } else if o.success {
            a matches SyncAction::Done(SyncOutcome::UpToDate)
        } else {
            a is Fetch
        },
        (SyncStage::AwaitFetch, SyncEvent::Ran(o)) => if !o.spawned {
            a matches SyncAction::Fail(RepoError::FetchNotRun)
        } else if !o.success {
            a matches SyncAction::Fail(RepoError::FetchFailed { stderr }) && stderr@ == trimmed(o.stderr@)
        } else {
            a is ResetToHead
        },
        (SyncStage::AwaitResetHead, SyncEvent::Ran(o)) => if !o.spawned {
            a matches SyncAction::Fail(RepoError::ResetNotRun)
        } else if o.success {
            a matches SyncAction::Done(SyncOutcome::Updated)
        } else {
            a is ResetToMain
        },
        (SyncStage::AwaitResetMain, SyncEvent::Ran(_)) => a matches SyncAction::Done(SyncOutcome::Updated),
        _ => false,
    }
}

/// `s` without leading and trailing white space.
fn trim_string(s: &String) -> (r: String)
    ensures
        r@ == trimmed(s@),
{
    string_of(&trim_chars(&chars_of(s.as_str())))
}

impl SyncJob {
    /// Advance the job on what its last action found, and say what to do next.
    pub fn step(&mut self, event: SyncEvent) -> (a: SyncAction)
        requires
            answers(old(self).stage, event),
        ensures
            final(self).stage == next_stage(old(self).stage, event),
            action_fits(old(self).stage, event, a),
    {
        match (self.stage, event) {
            (SyncStage::AwaitGit { updating }, SyncEvent::GitProbed(ok)) => {
                if !ok {
                    self.stage = SyncStage::Finished;
                    SyncAction::Fail(RepoError::GitNotFound)
                } else if updating {
                    self.stage = SyncStage::AwaitCached;
                    SyncAction::CheckCached
                } else {
                    self.stage = SyncStage::AwaitParent;
                    SyncAction::PrepareParent
                }
            },
            (SyncStage::AwaitCached, SyncEvent::CacheChecked(cached)) => {
                if cached {
                    self.stage = SyncStage::AwaitPull;
                    SyncAction::Pull
                } else {
                    self.stage = SyncStage::AwaitGit { updating: false };
                    SyncAction::CheckGit { announce_init: true }
                }
            },
            (SyncStage::AwaitParent, SyncEvent::ParentPrepared(failure)) => match failure {
                Some(p) => {
                    self.stage = SyncStage::Finished;
                    SyncAction::Fail(RepoError::CreateParentFailed { parent: p })
                },
                None => {
                    self.stage = SyncStage::AwaitClear;
                    SyncAction::ClearIncomplete
                },
            },
            (SyncStage::AwaitClear, SyncEvent::Cleared) => {
                self.stage = SyncStage::AwaitClone;
                SyncAction::Clone { url: String::from_str(GITHUB_GITIGNORE_REPO) }
            },
            (SyncStage::AwaitClone, SyncEvent::Ran(o)) => {
                self.stage = SyncStage::Finished;
                if !o.spawned {
                    SyncAction::Fail(RepoError::CloneNotRun)
                } else if !o.success {
                    SyncAction::Fail(RepoError::CloneFailed { code: o.code, stderr: trim_string(&o.stderr) })
                } else {
                    SyncAction::Done(SyncOutcome::Initialized)
                }
            },
            (SyncStage::AwaitPull, SyncEvent::Ran(o)) => {
                if !o.spawned {
                    self.stage = SyncStage::Finished;
                    SyncAction::Fail(RepoError::PullNotRun)
                } else if o.success {
                    self.stage = SyncStage::Finished;
                    SyncAction::Done(SyncOutcome::UpToDate)
                } else {
                    self.stage = SyncStage::AwaitFetch;
                    SyncAction::Fetch
                }
            },
            (SyncStage::AwaitFetch, SyncEvent::Ran(o)) => {
                if !o.spawned {
                    self.stage = SyncStage::Finished;
                    SyncAction::Fail(RepoError::FetchNotRun)
                } else if !o.success {
                    self.stage = SyncStage::Finished;
                    SyncAction::Fail(RepoError::FetchFailed { stderr: trim_string(&o.stderr) })
                } else {
                    self.stage = SyncStage::AwaitResetHead;
                    SyncAction::ResetToHead
                }
            },
            (SyncStage::AwaitResetHead, SyncEvent::Ran(o)) => {
                if !o.spawned {
                    self.stage = SyncStage::Finished;
                    SyncAction::Fail(RepoError::ResetNotRun)
                } else if o.success {
                    self.stage = SyncStage::Finished;
                    SyncAction::Done(SyncOutcome::Updated)
                } else {
                    self.stage = SyncStage::AwaitResetMain;
                    SyncAction::ResetToMain
                }
            },
            (SyncStage::AwaitResetMain, SyncEvent::Ran(_)) => {
                self.stage = SyncStage::Finished;
                SyncAction::Done(SyncOutcome::Updated)
            },
            _ => {
                assert(false);
                self.stage = SyncStage::Finished;
                SyncAction::Fail(RepoError::GitNotFound)
            },
        }
    }
}

impl GitignoreRepo {
    /// Start fetching the collection from GitHub: the job first checks for `git`.
    pub fn init_repo(&self) -> (r: (SyncJob, SyncAction))
        ensures
            r.0.stage == (SyncStage::AwaitGit { updating: false }),
            r.1 matches SyncAction::CheckGit { announce_init } && !announce_init,
    {
        (SyncJob { stage: SyncStage::AwaitGit { updating: false } }, SyncAction::CheckGit { announce_init: false })
    }

    /// Same as `init_repo`.
    pub fn clone_repo(&self) -> (r: (SyncJob, SyncAction))
        ensures
            r.0.stage == (SyncStage::AwaitGit { updating: false }),
            r.1 matches SyncAction::CheckGit { announce_init } && !announce_init,
    {
        self.init_repo()
    }

    /// Start updating the collection: the job checks for `git`, then pulls, falling back
    /// to a shallow fetch and a hard reset; an uninitialized collection is cloned instead.
    pub fn update_repo(&self) -> (r: (SyncJob, SyncAction))
        ensures
            r.0.stage == (SyncStage::AwaitGit { updating: true }),
            r.1 matches SyncAction::CheckGit { announce_init } && !announce_init,
    {
        (SyncJob { stage: SyncStage::AwaitGit { updating: true } }, SyncAction::CheckGit { announce_init: false })
    }

    /// Same as `update_repo`.
    pub fn update(&self) -> (r: (SyncJob, SyncAction))
        ensures
            r.0.stage == (SyncStage::AwaitGit { updating: true }),
            r.1 matches SyncAction::CheckGit { announce_init } && !announce_init,
    {
        self.update_repo()
    }
}

} // verus!
