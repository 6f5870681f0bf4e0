use vstd::prelude::*;
use crate::text::concat_str;

verus! {

/// Release state of one working copy: its path and whether its directory
/// has been removed. The directory removal itself is done by the caller,
/// which reports its outcome here.
#[derive(Debug)]
pub struct RepoCleanup {
    pub repo_path: String,
    pub cleaned: bool,
}

/// The outcome of trying to remove the working copy's directory.
#[derive(Debug, Clone, PartialEq, Eq)]
pub enum Removal {
    /// The directory was removed.
    Done,
    /// There was no directory to remove: an earlier removal completed.
    NotFound,
    /// The removal failed for the given reason.
    Failed(String),
}

/// Error text for a failed removal of the working copy.
pub open spec fn removal_error(cause: Seq<char>) -> Seq<char> {
    "Failed to remove repository directory: "@ + cause
}

/// State after reporting `removal` to `s`: a removal that succeeded, or
/// found the directory already gone, marks the working copy as released;
/// a failure leaves it as it was.
pub open spec fn after_removal(s: RepoCleanup, removal: Removal) -> RepoCleanup {
    if !s.cleaned && removal !is Failed {
        RepoCleanup { repo_path: s.repo_path, cleaned: true }
    } else {
        s
    }
}

/// Result of reporting `removal` to `s`: an error only when a removal that
/// was still owed failed.
pub open spec fn removal_reported(s: RepoCleanup, removal: Removal, r: Result<(), String>) -> bool {
    match removal {
        Removal::Failed(e) if !s.cleaned => r matches Err(m) && m@ == removal_error(e@),
        _ => r is Ok,
    }
}

impl RepoCleanup {
    /// Tracks a freshly acquired working copy, not yet removed.
    pub fn new(repo_path: String) -> (r: Self)
        ensures
            r.repo_path == repo_path,
            !r.cleaned,
    {
        RepoCleanup { repo_path, cleaned: false }
    }

    /// Whether the directory still has to be removed.
    pub fn needs_removal(&self) -> (r: bool)
        ensures
            r == !self.cleaned,
    {
        !self.cleaned
    }

    /// Records the outcome of removing the directory. Once the working copy
    /// has been released, further calls change nothing and succeed; a
    /// directory found already gone counts as released, without error.
    pub fn cleanup(&mut self, removal: Removal) -> (r: Result<(), String>)
        ensures
            *final(self) == after_removal(*old(self), removal),
            removal_reported(*old(self), removal, r),
    {
        if !self.cleaned {
            match removal {
                Removal::Failed(e) => {
                    return Err(concat_str("Failed to remove repository directory: ", e.as_str()));
                },
                Removal::Done | Removal::NotFound => {
                    self.cleaned = true;
                },
            }
        }
        Ok(())
    }
}

/// Releasing a working copy is idempotent: after one completed removal,
/// any further release leaves the state as it is and reports no error.
pub proof fn lemma_release_idempotent(s: RepoCleanup, first: Removal, again: Removal, r: Result<(), String>)
    requires
        first !is Failed,
        removal_reported(after_removal(s, first), again, r),
    ensures
        after_removal(s, first).cleaned,
        after_removal(after_removal(s, first), again) == after_removal(s, first),
        r is Ok,
{
}

} // verus!
