//! Bringing a worktree up to date with its remote branch, as a state
//! machine: each step reads the outcome of the last git command and names the
//! next one, until the update is done.
use vstd::prelude::*;
use crate::git::{is_conflict, GitCommand, GitError};
use crate::text::{chars_of, same_chars, text_of, trim, trimmed};

verus! {

/// What a git command reported.
#[derive(Debug, Clone)]
pub struct CommandOutcome {
    pub success: bool,
    pub stdout: String,
    pub stderr: String,
}

/// Where an update stands: each stage waits for the outcome of one command.
#[derive(Debug)]
pub enum SyncState {
    /// Waiting for the name of the checked-out branch.
    BranchRead,
    /// Switching branches: waiting for the list of local changes.
    DirtyForSwitch,
    /// Switching branches: waiting for the stash of local changes.
    StashForSwitch,
    /// Switching branches: waiting for the local branch listing.
    LocalBranch { stashed: bool },
    /// Switching branches: waiting for the fetch before the remote lookup.
    FetchForSwitch { stashed: bool },
    /// Switching branches: waiting for the remote branch listing.
    RemoteBranch { stashed: bool },
    /// Switching branches: waiting for the checkout.
    Checkout { stashed: bool },
    /// Switching branches: waiting for the stashed changes to come back.
    PopAfterSwitch,
    /// Waiting for the local HEAD.
    HeadRead,
    /// Waiting for the fetch.
    Fetched { head: String },
    /// Waiting for the remote head.
    RemoteRead { head: String },
    /// Waiting for the list of local changes before pulling.
    DirtyForPull { head: String, remote: String },
    /// Waiting for the stash before pulling.
    StashForPull { head: String, remote: String },
    /// Waiting for the pull.
    Pulling { head: String, remote: String, stashed: bool },
    /// The pull conflicted: waiting for the reset to the pre-pull HEAD.
    Resetting,
    /// Waiting for the stashed changes to come back after the pull.
    PopAfterPull { remote: String },
    /// Finished: the new HEAD when a commit was pulled, `None` when there was
    /// nothing to pull.
    Done(Result<Option<String>, GitError>),
}

/// A command that writes to the worktree.
pub open spec fn writes_worktree(c: GitCommand) -> bool {
    c is Clone || c is Stash || c is StashPop || c is Pull || c is ResetTo || c is ResetPrevious
        || c is Checkout || c is CheckoutTracking
}

pub open spec fn done_with(t: SyncState, r: Result<Option<Seq<char>>, GitError>) -> bool {
    match t {
        SyncState::Done(Ok(Some(h))) => r == Ok::<Option<Seq<char>>, GitError>(Some(h@)),
        SyncState::Done(Ok(None)) => r == Ok::<Option<Seq<char>>, GitError>(None),
        SyncState::Done(Err(e)) => r == Err::<Option<Seq<char>>, GitError>(e),
        _ => false,
    }
}

/// The update's transition: from stage `s` and the outcome `o` of the command
/// it waited for, to stage `t` and the next command `c` (`None` once done).
/// `branch` is the tracked branch.
pub open spec fn sync_next(
    branch: Seq<char>,
    s: SyncState,
    o: CommandOutcome,
    t: SyncState,
    c: Option<GitCommand>,
) -> bool {
    let out = o.stdout@;
    let printed = out.len() > 0;
    match s {
        SyncState::BranchRead => if !o.success {
            done_with(t, Err(GitError::FetchFailed)) && c is None
        } else if trimmed(out) == branch {
            t is HeadRead && c == Some(GitCommand::Head)
        } else {
            t is DirtyForSwitch && c == Some(GitCommand::Status)
        },
        SyncState::DirtyForSwitch => if !o.success {
            done_with(t, Err(GitError::FetchFailed)) && c is None
        } else if printed {
            t is StashForSwitch && c == Some(GitCommand::Stash)
        } else {
            t == (SyncState::LocalBranch { stashed: false }) && c == Some(
                GitCommand::ListLocalBranch,
            )
        },
        SyncState::StashForSwitch => t == (SyncState::LocalBranch { stashed: true }) && c == Some(
            GitCommand::ListLocalBranch,
        ),
        SyncState::LocalBranch { stashed } => if !o.success {
            done_with(t, Err(GitError::BranchMissing)) && c is None
        } else if printed {
            t == (SyncState::Checkout { stashed }) && c == Some(GitCommand::Checkout)
        } else {
            t == (SyncState::FetchForSwitch { stashed }) && c == Some(GitCommand::Fetch)
        },
        SyncState::FetchForSwitch { stashed } => if !o.success {
            done_with(t, Err(GitError::FetchFailed)) && c is None
        } else {
            t == (SyncState::RemoteBranch { stashed }) && c == Some(GitCommand::ListRemoteBranch)
        },
        SyncState::RemoteBranch { stashed } => if !o.success {
            done_with(t, Err(GitError::FetchFailed)) && c is None
        } else if printed {
            t == (SyncState::Checkout { stashed }) && c == Some(GitCommand::CheckoutTracking)
        } else {
            done_with(t, Err(GitError::BranchMissing)) && c is None
        },
        SyncState::Checkout { stashed } => if !o.success {
            done_with(t, Err(GitError::BranchMissing)) && c is None
        } else if stashed {
            t is PopAfterSwitch && c == Some(GitCommand::StashPop)
        } else {
            t is HeadRead && c == Some(GitCommand::Head)
        },
        SyncState::PopAfterSwitch => t is HeadRead && c == Some(GitCommand::Head),
        SyncState::HeadRead => if !o.success {
            done_with(t, Err(GitError::FetchFailed)) && c is None
        } else {
            t is Fetched && t->Fetched_head@ == trimmed(out) && c == Some(GitCommand::Fetch)
        },
        SyncState::Fetched { head } => if !o.success {
            done_with(t, Err(GitError::FetchFailed)) && c is None
        } else {
            t == (SyncState::RemoteRead { head }) && c == Some(GitCommand::RemoteHead)
        },
        SyncState::RemoteRead { head } => if !o.success {
            done_with(t, Err(GitError::FetchFailed)) && c is None
        } else if trimmed(out) == head@ {
            done_with(t, Ok(None)) && c is None
        } else {
            t is DirtyForPull && t->DirtyForPull_head == head && t->DirtyForPull_remote@ == trimmed(
                out,
            ) && c == Some(GitCommand::Status)
        },
        SyncState::DirtyForPull { head, remote } => if !o.success {
            done_with(t, Err(GitError::FetchFailed)) && c is None
        } else if printed {
            t == (SyncState::StashForPull { head, remote }) && c == Some(GitCommand::Stash)
        } else {
            t == (SyncState::Pulling { head, remote, stashed: false }) && c == Some(
                GitCommand::Pull,
            )
        },
        SyncState::StashForPull { head, remote } => t == (SyncState::Pulling {
            head,
            remote,
            stashed: true,
        }) && c == Some(GitCommand::Pull),
        SyncState::Pulling { head, remote, stashed } => if o.success {
            if stashed {
                t == (SyncState::PopAfterPull { remote }) && c == Some(GitCommand::StashPop)
            } else {
                done_with(t, Ok(Some(remote@))) && c is None
            }
        } else if is_conflict(o.stderr@) {
            t is Resetting && c == Some(GitCommand::ResetTo(head))
        } else {
            done_with(t, Err(GitError::PullFailed)) && c is None
        },
        SyncState::Resetting => if o.success {
            done_with(t, Err(GitError::MergeConflict)) && c is None
        } else {
            done_with(t, Err(GitError::ResetFailed)) && c is None
        },
        SyncState::PopAfterPull { remote } => done_with(t, Ok(Some(remote@))) && c is None,
        SyncState::Done(r) => t == SyncState::Done(r) && c is None,
    }
}

fn output_text(o: &CommandOutcome) -> (r: Vec<char>)
    ensures
        r@ == trimmed(o.stdout@),
{
    trim(chars_of(o.stdout.as_str()).as_slice())
}

fn finished(r: Result<Option<String>, GitError>) -> (p: (SyncState, Option<GitCommand>))
    ensures
        p.0 == SyncState::Done(r),
        p.1 is None,
{
    (SyncState::Done(r), None)
}

impl SyncState {
    /// The first stage of an update and the command it runs.
    pub fn start() -> (r: (SyncState, GitCommand))
        ensures
            r.0 is BranchRead,
            r.1 == GitCommand::CurrentBranch,
    {
        (SyncState::BranchRead, GitCommand::CurrentBranch)
    }

    /// The next stage and command after the outcome of this stage's command.
    pub fn step(&self, branch: &str, o: &CommandOutcome) -> (r: (SyncState, Option<GitCommand>))
        ensures
            sync_next(branch@, *self, *o, r.0, r.1),
    {
        let printed = o.stdout.unicode_len() > 0;
        match self {
            SyncState::BranchRead => {
                if !o.success {
                    return finished(Err(GitError::FetchFailed));
                }
                let current = output_text(o);
                if same_chars(current.as_slice(), chars_of(branch).as_slice()) {
                    (SyncState::HeadRead, Some(GitCommand::Head))
                } else {
                    (SyncState::DirtyForSwitch, Some(GitCommand::Status))
                }
            },
            SyncState::DirtyForSwitch => {
                if !o.success {
                    finished(Err(GitError::FetchFailed))
                } else if printed {
                    (SyncState::StashForSwitch, Some(GitCommand::Stash))
                } else {
                    (SyncState::LocalBranch { stashed: false }, Some(GitCommand::ListLocalBranch))
                }
            },
            SyncState::StashForSwitch => (
                SyncState::LocalBranch { stashed: true },
                Some(GitCommand::ListLocalBranch),
            ),
            SyncState::LocalBranch { stashed } => {
                if !o.success {
                    finished(Err(GitError::BranchMissing))
                } else if printed {
                    (SyncState::Checkout { stashed: *stashed }, Some(GitCommand::Checkout))
                } else {
                    (SyncState::FetchForSwitch { stashed: *stashed }, Some(GitCommand::Fetch))
                }
            },
            SyncState::FetchForSwitch { stashed } => {
                if !o.success {
                    finished(Err(GitError::FetchFailed))
                } else {
                    (
                        SyncState::RemoteBranch { stashed: *stashed },
                        Some(GitCommand::ListRemoteBranch),
                    )
                }
            },
            SyncState::RemoteBranch { stashed } => {
                if !o.success {
                    finished(Err(GitError::FetchFailed))
                } else if printed {
                    (SyncState::Checkout { stashed: *stashed }, Some(GitCommand::CheckoutTracking))
                } else {
                    finished(Err(GitError::BranchMissing))
                }
            },
            SyncState::Checkout { stashed } => {
                if !o.success {
                    finished(Err(GitError::BranchMissing))
                } else if *stashed {
                    (SyncState::PopAfterSwitch, Some(GitCommand::StashPop))
                } else {
                    (SyncState::HeadRead, Some(GitCommand::Head))
                }
            },
            SyncState::PopAfterSwitch => (SyncState::HeadRead, Some(GitCommand::Head)),
            SyncState::HeadRead => {
                if !o.success {
                    return finished(Err(GitError::FetchFailed));
                }
                let head = output_text(o);
                (SyncState::Fetched { head: text_of(head.as_slice()) }, Some(GitCommand::Fetch))
            },
            SyncState::Fetched { head } => {
                if !o.success {
                    finished(Err(GitError::FetchFailed))
                } else {
                    (SyncState::RemoteRead { head: head.clone() }, Some(GitCommand::RemoteHead))
                }
            },
            SyncState::RemoteRead { head } => {
                if !o.success {
                    return finished(Err(GitError::FetchFailed));
                }
                let remote = output_text(o);
                if same_chars(remote.as_slice(), chars_of(head.as_str()).as_slice()) {
                    finished(Ok(None))
                } else {
                    (
                        SyncState::DirtyForPull {
                            head: head.clone(),
                            remote: text_of(remote.as_slice()),
                        },
                        Some(GitCommand::Status),
                    )
                }
            },
            SyncState::DirtyForPull { head, remote } => {
                if !o.success {
                    finished(Err(GitError::FetchFailed))
                } else if printed {
                    (
                        SyncState::StashForPull { head: head.clone(), remote: remote.clone() },
                        Some(GitCommand::Stash),
                    )
                } else {
                    (
                        SyncState::Pulling {
                            head: head.clone(),
                            remote: remote.clone(),
                            stashed: false,
                        },
                        Some(GitCommand::Pull),
                    )
                }
            },
            SyncState::StashForPull { head, remote } => (
                SyncState::Pulling { head: head.clone(), remote: remote.clone(), stashed: true },
                Some(GitCommand::Pull),
            ),
            SyncState::Pulling { head, remote, stashed } => {
                if o.success {
                    if *stashed {
                        (SyncState::PopAfterPull { remote: remote.clone() }, Some(GitCommand::StashPop))
                    } else {
                        finished(Ok(Some(remote.clone())))
                    }
                } else if crate::git::classify_pull_failure(o.stderr.as_str())
                    == GitError::MergeConflict {
                    (SyncState::Resetting, Some(GitCommand::ResetTo(head.clone())))
                } else {
                    finished(Err(GitError::PullFailed))
                }
            },
            SyncState::Resetting => {
                if o.success {
                    finished(Err(GitError::MergeConflict))
                } else {
                    finished(Err(GitError::ResetFailed))
                }
            },
            SyncState::PopAfterPull { remote } => finished(Ok(Some(remote.clone()))),
            SyncState::Done(r) => finished(
                match r {
                    Ok(Some(h)) => Ok(Some(h.clone())),
                    Ok(None) => Ok(None),
                    Err(e) => Err(*e),
                },
            ),
        }
    }
}

/// When a pull conflicts, the update resets the worktree to the HEAD it read
/// before pulling, and once that reset succeeds it reports a merge conflict.
pub proof fn lemma_conflict_resets_to_pre_pull_head(
    branch: Seq<char>,
    head: String,
    remote: String,
    stashed: bool,
    o: CommandOutcome,
    t: SyncState,
    c: Option<GitCommand>,
    o2: CommandOutcome,
    t2: SyncState,
    c2: Option<GitCommand>,
)
    requires
        !o.success,
        is_conflict(o.stderr@),
        sync_next(branch, SyncState::Pulling { head, remote, stashed }, o, t, c),
        o2.success,
        sync_next(branch, t, o2, t2, c2),
    ensures
        c == Some(GitCommand::ResetTo(head)),
        done_with(t2, Err(GitError::MergeConflict)),
        c2 is None,
{
}

/// An update on the tracked branch whose remote head equals the local HEAD
/// reads the branch and HEAD, fetches, reads the remote head, and finishes
/// with nothing pulled: none of its commands writes to the worktree.
pub proof fn lemma_unchanged_update_is_read_only(
    branch: Seq<char>,
    o1: CommandOutcome,
    t1: SyncState,
    c1: Option<GitCommand>,
    o2: CommandOutcome,
    t2: SyncState,
    c2: Option<GitCommand>,
    o3: CommandOutcome,
    t3: SyncState,
    c3: Option<GitCommand>,
    o4: CommandOutcome,
    t4: SyncState,
    c4: Option<GitCommand>,
)
    requires
        o1.success && trimmed(o1.stdout@) == branch,
        sync_next(branch, SyncState::BranchRead, o1, t1, c1),
        o2.success,
        sync_next(branch, t1, o2, t2, c2),
        o3.success,
        sync_next(branch, t2, o3, t3, c3),
        o4.success && trimmed(o4.stdout@) == trimmed(o2.stdout@),
        sync_next(branch, t3, o4, t4, c4),
    ensures
        c1 == Some(GitCommand::Head),
        c2 == Some(GitCommand::Fetch),
        c3 == Some(GitCommand::RemoteHead),
        c4 is None,
        done_with(t4, Ok(None)),
        !writes_worktree(GitCommand::CurrentBranch),
        !writes_worktree(c1->Some_0) && !writes_worktree(c2->Some_0) && !writes_worktree(
            c3->Some_0,
        ),
{
}

} // verus!
