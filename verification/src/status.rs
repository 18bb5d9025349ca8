//! Status classification: given plain observations of a repository (HEAD
//! state, upstream ahead/behind counts, change counts from the two diffs),
//! decide which synchronization state the repository is in.

use vstd::prelude::*;

use crate::git_backend::{
    head_query,
    repo_is_bare,
    remote_names,
    staged_change_count,
    upstream_counts,
    worktree_change_count,
    HeadQuery,
    UpstreamQuery,
};
use crate::errors::ViewError;
use crate::remotes::select_remote_name;

verus! {

/// The synchronization state of a repository's working tree and branch.
/// Exactly one variant holds for a view; `Unknown` is reserved for
/// repositories that are unreadable or trigger the known
/// backend-compatibility edge case at open time.
#[derive(Clone, Copy, Debug, PartialEq, Eq, Structural)]
pub enum Status {
    Clean,
    Dirty,
    Ahead(usize),
    Behind(usize),
    Diverged(usize, usize),
    Detached,
    NoUpstream,
    Unknown,
}

/// What was observed of a repository's HEAD. The shorthand ref name is
/// carried as `None` when the backend reported one that is not valid text.
#[derive(Clone, Debug)]
pub enum HeadObservation {
    /// The repository is unborn/empty: HEAD points at a branch with no commit.
    Unborn,
    /// HEAD points directly at a commit rather than a branch.
    Detached { shorthand: Option<String> },
    /// HEAD points at a born branch.
    Branch { shorthand: Option<String> },
}

/// What was observed of the upstream-tracking branch.
#[derive(Clone, Copy, Debug, PartialEq, Eq, Structural)]
pub enum UpstreamObservation {
    /// No upstream-tracking branch is configured for the current branch.
    Missing,
    /// Commit counts the local branch has that upstream lacks, and vice versa.
    Counts { ahead: usize, behind: usize },
}

/// The plain observations a single status classification works from.
#[derive(Clone, Debug)]
pub struct RepoSnapshot {
    pub head: HeadObservation,
    pub upstream: UpstreamObservation,
    /// Number of changes between HEAD's tree and the index.
    pub staged_changes: usize,
    /// Number of changes between the index and the working tree.
    pub worktree_changes: usize,
}

/// The working tree is dirty when either diff reported a change.
pub open spec fn spec_is_dirty(s: RepoSnapshot) -> bool {
    s.staged_changes > 0 || s.worktree_changes > 0
}

/// The classification rule. HEAD state is decided first (an unborn
/// repository has no commits to compare, a detached HEAD has no branch to
/// track), then working-tree cleanliness, then the upstream comparison.
pub open spec fn spec_classify(s: RepoSnapshot) -> Status {
    match s.head {
        HeadObservation::Unborn => if spec_is_dirty(s) {
            Status::Dirty
        } else {
            Status::Clean
        },
        HeadObservation::Detached { .. } => Status::Detached,
        HeadObservation::Branch { .. } => if spec_is_dirty(s) {
            Status::Dirty
        } else {
            match s.upstream {
                UpstreamObservation::Missing => Status::NoUpstream,
                UpstreamObservation::Counts { ahead, behind } => if ahead > 0 && behind > 0 {
                    Status::Diverged(ahead, behind)
                } else if ahead > 0 {
                    Status::Ahead(ahead)
                } else if behind > 0 {
                    Status::Behind(behind)
                } else {
                    Status::Clean
                },
            }
        },
    }
}

impl Status {
    /// Classify a snapshot of repository observations.
    pub fn classify(s: &RepoSnapshot) -> (r: Status)
        ensures
            r == spec_classify(*s),
    {
        match s.head {
            HeadObservation::Unborn => if s.staged_changes > 0 || s.worktree_changes > 0 {
                Status::Dirty
            } else {
                Status::Clean
            },
            HeadObservation::Detached { .. } => Status::Detached,
            HeadObservation::Branch { .. } => {
                if s.staged_changes > 0 || s.worktree_changes > 0 {
                    Status::Dirty
                } else {
                    match s.upstream {
                        UpstreamObservation::Missing => Status::NoUpstream,
                        UpstreamObservation::Counts { ahead, behind } => {
                            if ahead > 0 && behind > 0 {
                                Status::Diverged(ahead, behind)
                            } else if ahead > 0 {
                                Status::Ahead(ahead)
                            } else if behind > 0 {
                                Status::Behind(behind)
                            } else {
                                Status::Clean
                            }
                        },
                    }
                }
            },
        }
    }
}

impl HeadObservation {
    /// The branch name a view reports for this HEAD: the `HEAD` sentinel
    /// when the repository is unborn/empty, else the shorthand ref name,
    /// which must be valid text.
    pub fn branch_label(&self) -> (r: Result<String, ViewError>)
        ensures
            self is Unborn ==> (r matches Ok(s) && s@ == "HEAD"@),
            self matches HeadObservation::Detached { shorthand: Some(n) } ==> (r matches Ok(s)
                && s@ == n@),
            self matches HeadObservation::Branch { shorthand: Some(n) } ==> (r matches Ok(s)
                && s@ == n@),
            r is Err <==> (self matches HeadObservation::Detached { shorthand: None } || self
                matches HeadObservation::Branch { shorthand: None }),
    {
        match self {
            HeadObservation::Unborn => Ok(String::from_str("HEAD")),
            HeadObservation::Detached { shorthand } => match shorthand {
                Some(s) => Ok(s.clone()),
                None => Err(ViewError::NonTextBranch),
            },
            HeadObservation::Branch { shorthand } => match shorthand {
                Some(s) => Ok(s.clone()),
                None => Err(ViewError::NonTextBranch),
            },
        }
    }
}

/// Read one snapshot of plain observations off an open repository. What
/// comes back depends on the state on disk, so the snapshot is returned to
/// the caller, whose classification is verified for every value of it. Any
/// read error is fatal for this one repository.
pub(crate) fn observe_repository(repo: &git2::Repository) -> Result<RepoSnapshot, String> {
    let head = match head_query(repo) {
        HeadQuery::Unborn => HeadObservation::Unborn,
        HeadQuery::Resolved { detached, shorthand } => {
            if detached {
                HeadObservation::Detached { shorthand }
            } else {
                HeadObservation::Branch { shorthand }
            }
        },
        HeadQuery::Failed(msg) => {
            return Err(msg);
        },
    };
    let upstream = match &head {
        HeadObservation::Branch { shorthand: Some(name) } => {
            match upstream_counts(repo, name) {
                UpstreamQuery::Missing => UpstreamObservation::Missing,
                UpstreamQuery::Counts { ahead, behind } => {
                    UpstreamObservation::Counts { ahead, behind }
                },
                UpstreamQuery::Failed(msg) => {
                    return Err(msg);
                },
            }
        },
        _ => UpstreamObservation::Missing,
    };
    let staged_changes = match staged_change_count(repo) {
        Ok(n) => n,
        Err(msg) => {
            return Err(msg);
        },
    };
    // A bare repository has no working tree, hence no worktree changes.
    let worktree_changes = if repo_is_bare(repo) {
        0
    } else {
        match worktree_change_count(repo) {
            Ok(n) => n,
            Err(msg) => {
                return Err(msg);
            },
        }
    };
    Ok(RepoSnapshot { head, upstream, staged_changes, worktree_changes })
}

impl Status {
    /// The classifier pass over an open repository: observe it, classify
    /// the snapshot, and select the remote to operate against (`origin`
    /// when present, else, greedily, the first named remote). The returned
    /// status is the classification of the returned snapshot.
    pub fn find(repo: &git2::Repository) -> (r: Result<
        (Status, RepoSnapshot, Option<String>),
        String,
    >)
        ensures
            r matches Ok(t) ==> t.0 == spec_classify(t.1),
    {
        let snapshot = match observe_repository(repo) {
            Ok(s) => s,
            Err(msg) => {
                return Err(msg);
            },
        };
        let status = Status::classify(&snapshot);
        let names = match remote_names(repo) {
            Ok(n) => n,
            Err(msg) => {
                return Err(msg);
            },
        };
        let remote = select_remote_name(&names);
        Ok((status, snapshot, remote))
    }
}

/// An unborn/empty HEAD never classifies as an ahead/behind state: with no
/// local commit there is nothing to compare against an upstream.
pub proof fn lemma_unborn_excludes_ahead_behind(s: RepoSnapshot)
    requires
        s.head is Unborn,
    ensures
        !(spec_classify(s) is Ahead),
        !(spec_classify(s) is Behind),
        !(spec_classify(s) is Diverged),
{
}

} // verus!
