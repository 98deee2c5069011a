use vstd::prelude::*;

use crate::paths::backup_differs;

verus! {

/// A filesystem step of the rewrite. The caller performs it and reports
/// whether it succeeded.
#[derive(Clone, Copy, Debug, PartialEq, Eq, Structural)]
pub enum Step {
    /// Create the staging file in the target's directory and give it the
    /// target's permission bits.
    CreateStaging,
    /// Copy what is left of the open target, everything after the BOM, into
    /// the staging file.
    CopyContent,
    /// Rename the target to its backup path.
    RenameToBackup,
    /// Rename the staging file to the target path.
    Promote,
    /// Rename the backup back to the target path after a failed promotion.
    RestoreBackup,
    /// Delete the backup file.
    RemoveBackup,
}

/// Why a rewrite failed.
#[derive(Clone, Copy, Debug, PartialEq, Eq, Structural)]
pub enum RewriteError {
    /// The staging file could not be created or given the target's permissions.
    Staging,
    /// The content could not be copied into the staging file.
    Copy,
    /// The target could not be renamed to its backup path.
    Backup,
    /// The staging file could not be renamed to the target path; `restored`
    /// tells whether the backup was then renamed back to the target path.
    Promotion { restored: bool },
    /// The rewrite took effect but the backup could not be deleted.
    BackupRemoval,
}

/// What the caller does next.
#[derive(Clone, Copy, Debug, PartialEq, Eq, Structural)]
pub enum Action {
    /// Perform this step and report its outcome.
    Perform(Step),
    /// The rewrite is complete.
    Succeed,
    /// The rewrite is over and failed.
    Fail(RewriteError),
}

/// The action that follows `step` given whether it succeeded.
pub open spec fn transition(step: Step, succeeded: bool, nobackup: bool) -> Action {
    match step {
        Step::CreateStaging => if succeeded {
            Action::Perform(Step::CopyContent)
        } else {
            Action::Fail(RewriteError::Staging)
        },
        Step::CopyContent => if succeeded {
            Action::Perform(Step::RenameToBackup)
        } else {
            Action::Fail(RewriteError::Copy)
        },
        Step::RenameToBackup => if succeeded {
            Action::Perform(Step::Promote)
        } else {
            Action::Fail(RewriteError::Backup)
        },
        Step::Promote => if !succeeded {
            Action::Perform(Step::RestoreBackup)
        } else if nobackup {
            Action::Perform(Step::RemoveBackup)
        } else {
            Action::Succeed
        },
        Step::RestoreBackup => Action::Fail(RewriteError::Promotion { restored: succeeded }),
        Step::RemoveBackup => if succeeded {
            Action::Succeed
        } else {
            Action::Fail(RewriteError::BackupRemoval)
        },
    }
}

/// The state of the rewrite of one file.
pub struct Rewrite {
    nobackup: bool,
    state: Action,
}

impl Rewrite {
    pub closed spec fn nobackup(&self) -> bool {
        self.nobackup
    }

    pub closed spec fn state(&self) -> Action {
        self.state
    }

    /// Starts a rewrite; `nobackup` asks for the backup to be deleted once
    /// the new content is in place.
    pub fn new(nobackup: bool) -> (r: Rewrite)
        ensures
            r.nobackup() == nobackup,
            r.state() == Action::Perform(Step::CreateStaging),
    {
        Rewrite { nobackup, state: Action::Perform(Step::CreateStaging) }
    }

    /// Starts the rewrite of the file at `target`, whose backup is to go to
    /// `backup`. Where the two paths coincide the rewrite fails at once with
    /// a backup error, before anything on disk is touched: renaming the
    /// target to itself would keep no copy of the original.
    pub fn start(target: &str, backup: &str, nobackup: bool) -> (r: Rewrite)
        ensures
            r.nobackup() == nobackup,
            r.state() == if target@ != backup@ {
                Action::Perform(Step::CreateStaging)
            } else {
                Action::Fail(RewriteError::Backup)
            },
    {
        if backup_differs(target, backup) {
            Rewrite::new(nobackup)
        } else {
            Rewrite { nobackup, state: Action::Fail(RewriteError::Backup) }
        }
    }

    /// What the caller is to do now.
    pub fn action(&self) -> (r: Action)
        ensures
            r == self.state(),
    {
        self.state
    }

    /// Records the outcome of the step that `action` asked for. Once the
    /// rewrite is over, a report changes nothing.
    pub fn report(&mut self, succeeded: bool)
        ensures
            final(self).nobackup() == old(self).nobackup(),
            final(self).state() == match old(self).state() {
                Action::Perform(step) => transition(step, succeeded, old(self).nobackup()),
                other => other,
            },
    {
        match self.state {
            Action::Perform(step) => {
                self.state = next_action(step, succeeded, self.nobackup);
            },
            _ => {},
        }
    }
}

/// The action that follows `step` given whether it succeeded.
pub fn next_action(step: Step, succeeded: bool, nobackup: bool) -> (r: Action)
    ensures
        r == transition(step, succeeded, nobackup),
{
    match step {
        Step::CreateStaging => if succeeded {
            Action::Perform(Step::CopyContent)
        } else {
            Action::Fail(RewriteError::Staging)
        },
        Step::CopyContent => if succeeded {
            Action::Perform(Step::RenameToBackup)
        } else {
            Action::Fail(RewriteError::Copy)
        },
        Step::RenameToBackup => if succeeded {
            Action::Perform(Step::Promote)
        } else {
            Action::Fail(RewriteError::Backup)
        },
        Step::Promote => if !succeeded {
            Action::Perform(Step::RestoreBackup)
        } else if nobackup {
            Action::Perform(Step::RemoveBackup)
        } else {
            Action::Succeed
        },
        Step::RestoreBackup => Action::Fail(RewriteError::Promotion { restored: succeeded }),
        Step::RemoveBackup => if succeeded {
            Action::Succeed
        } else {
            Action::Fail(RewriteError::BackupRemoval)
        },
    }
}

} // verus!
