//! The Git worktree adapter's decisions: which git commands to run, how to
//! read their output, and how to classify their failures.
use vstd::prelude::*;
use crate::config::{overridden, GlobalSettings, ServiceConfig};
use crate::docker::{join_path, joined};
use crate::text::{chars_of, contains, includes, opt_view, text_of, trim, trimmed, views};

verus! {

/// Why a git operation failed.
#[derive(Debug, Clone, Copy, PartialEq, Eq, Structural)]
pub enum GitError {
    CloneFailed,
    FetchFailed,
    PullFailed,
    MergeConflict,
    BranchMissing,
    ResetFailed,
}

/// The git invocations the adapter makes.
#[derive(Debug, Clone, PartialEq, Eq)]
pub enum GitCommand {
    /// Shallow clone of the tracked branch into the worktree.
    Clone,
    Head,
    CurrentBranch,
    Status,
    Stash,
    StashPop,
    Fetch,
    Pull,
    /// The commit the remote-tracking branch points at.
    RemoteHead,
    /// Hard reset to a commit.
    ResetTo(String),
    /// Hard reset to the previous HEAD.
    ResetPrevious,
    Checkout,
    /// Create the local branch tracking `origin/<branch>`.
    CheckoutTracking,
    ListLocalBranch,
    ListRemoteBranch,
}

/// How to make sure a worktree exists.
#[derive(Debug, Clone, Copy, PartialEq, Eq, Structural)]
pub enum EnsurePlan {
    /// A worktree is there: update it.
    Update,
    /// Clone into a fresh directory, first moving a non-worktree directory
    /// aside when `backup`.
    Clone { backup: bool },
}

/// A local worktree of a remote branch.
#[derive(Debug, Clone)]
pub struct GitRepo {
    pub path: String,
    pub remote_url: String,
    pub branch: String,
    /// The HEAD as last read; unset before the first read.
    pub current_commit: Option<String>,
    /// The private key git authenticates with, if any.
    pub ssh_key: Option<String>,
}

/// The arguments of a git command for a worktree tracking `branch` of `url`.
pub open spec fn git_args(url: Seq<char>, branch: Seq<char>, cmd: GitCommand) -> Seq<Seq<char>> {
    match cmd {
        GitCommand::Clone => seq!["clone"@, "--depth"@, "1"@, "-b"@, branch, url, "."@],
        GitCommand::Head => seq!["rev-parse"@, "HEAD"@],
        GitCommand::CurrentBranch => seq!["rev-parse"@, "--abbrev-ref"@, "HEAD"@],
        GitCommand::Status => seq!["status"@, "--porcelain"@],
        GitCommand::Stash => seq!["stash"@, "save"@, "Auto-stash before updating"@],
        GitCommand::StashPop => seq!["stash"@, "pop"@],
        GitCommand::Fetch => seq!["fetch"@, "origin"@, branch],
        GitCommand::Pull => seq!["pull"@, "origin"@, branch],
        GitCommand::RemoteHead => seq!["rev-parse"@, "origin/"@ + branch],
        GitCommand::ResetTo(c) => seq!["reset"@, "--hard"@, c@],
        GitCommand::ResetPrevious => seq!["reset"@, "--hard"@, "HEAD@{1}"@],
        GitCommand::Checkout => seq!["checkout"@, branch],
        GitCommand::CheckoutTracking => seq!["checkout"@, "-b"@, branch, "origin/"@ + branch],
        GitCommand::ListLocalBranch => seq!["branch"@, "--list"@, branch],
        GitCommand::ListRemoteBranch => seq!["ls-remote"@, "--heads"@, "origin"@, branch],
    }
}

/// A failed pull that left merge conflicts behind.
pub open spec fn is_conflict(message: Seq<char>) -> bool {
    contains(message, "CONFLICT"@) || contains(message, "Automatic merge failed"@)
}

fn push_str(v: &mut Vec<String>, s: &str)
    ensures
        views(final(v)@) == views(old(v)@).push(s@),
{
    let ghost before = views(v@);
    v.push(String::from_str(s));
    assert(views(v@) =~= before.push(s@));
}

impl GitRepo {
    pub fn new(path: String, url: String, branch: String, ssh_key: Option<String>) -> (r: Self)
        ensures
            r.path == path,
            r.remote_url == url,
            r.branch == branch,
            r.current_commit is None,
            r.ssh_key == ssh_key,
    {
        GitRepo { path, remote_url: url, branch, current_commit: None, ssh_key }
    }

    /// The worktree of a service, on its effective branch.
    pub fn from_service(service: &ServiceConfig, global: &GlobalSettings) -> (r: Self)
        ensures
            r.path == service.local_path,
            r.remote_url == service.repo_url,
            r.branch@ == overridden(opt_view(service.branch), global.default_branch@),
            r.current_commit is None,
            r.ssh_key is None,
    {
        GitRepo {
            path: service.local_path.clone(),
            remote_url: service.repo_url.clone(),
            branch: service.effective_branch(global.default_branch.as_str()),
            current_commit: None,
            ssh_key: None,
        }
    }

    /// The worktree's `.git` directory.
    pub fn git_dir(&self) -> (r: String)
        ensures
            r@ == joined(self.path@, ".git"@),
    {
        join_path(self.path.as_str(), ".git")
    }

    /// Whether the worktree exists, that is whether its `.git` directory does.
    pub fn worktree_exists(&self) -> bool {
        path_exists(self.git_dir().as_str())
    }

    /// Where a directory that is no worktree is moved before cloning.
    pub fn backup_path(&self) -> (r: String)
        ensures
            r@ == self.path@ + ".bak"@,
    {
        String::from_str(self.path.as_str()).concat(".bak")
    }

    /// The remote-tracking reference of the branch.
    pub fn remote_ref(&self) -> (r: String)
        ensures
            r@ == "origin/"@ + self.branch@,
    {
        String::from_str("origin/").concat(self.branch.as_str())
    }

    /// The arguments of a git command for this worktree.
    pub fn args(&self, cmd: &GitCommand) -> (r: Vec<String>)
        ensures
            views(r@) == git_args(self.remote_url@, self.branch@, *cmd),
    {
        let b = self.branch.as_str();
        let mut r: Vec<String> = Vec::new();
        match cmd {
            GitCommand::Clone => {
                push_str(&mut r, "clone");
                push_str(&mut r, "--depth");
                push_str(&mut r, "1");
                push_str(&mut r, "-b");
                push_str(&mut r, b);
                push_str(&mut r, self.remote_url.as_str());
                push_str(&mut r, ".");
            },
            GitCommand::Head => {
                push_str(&mut r, "rev-parse");
                push_str(&mut r, "HEAD");
            },
            GitCommand::CurrentBranch => {
                push_str(&mut r, "rev-parse");
                push_str(&mut r, "--abbrev-ref");
                push_str(&mut r, "HEAD");
            },
            GitCommand::Status => {
                push_str(&mut r, "status");
                push_str(&mut r, "--porcelain");
            },
            GitCommand::Stash => {
                push_str(&mut r, "stash");
                push_str(&mut r, "save");
                push_str(&mut r, "Auto-stash before updating");
            },
            GitCommand::StashPop => {
                push_str(&mut r, "stash");
                push_str(&mut r, "pop");
            },
            GitCommand::Fetch => {
                push_str(&mut r, "fetch");
                push_str(&mut r, "origin");
                push_str(&mut r, b);
            },
            GitCommand::Pull => {
                push_str(&mut r, "pull");
                push_str(&mut r, "origin");
                push_str(&mut r, b);
            },
            GitCommand::RemoteHead => {
                push_str(&mut r, "rev-parse");
                let remote = self.remote_ref();
                push_str(&mut r, remote.as_str());
            },
            GitCommand::ResetTo(c) => {
                push_str(&mut r, "reset");
                push_str(&mut r, "--hard");
                push_str(&mut r, c.as_str());
            },
            GitCommand::ResetPrevious => {
                push_str(&mut r, "reset");
                push_str(&mut r, "--hard");
                push_str(&mut r, "HEAD@{1}");
            },
            GitCommand::Checkout => {
                push_str(&mut r, "checkout");
                push_str(&mut r, b);
            },
            GitCommand::CheckoutTracking => {
                push_str(&mut r, "checkout");
                push_str(&mut r, "-b");
                push_str(&mut r, b);
                let remote = self.remote_ref();
                push_str(&mut r, remote.as_str());
            },
            GitCommand::ListLocalBranch => {
                push_str(&mut r, "branch");
                push_str(&mut r, "--list");
                push_str(&mut r, b);
            },
            GitCommand::ListRemoteBranch => {
                push_str(&mut r, "ls-remote");
                push_str(&mut r, "--heads");
                push_str(&mut r, "origin");
                push_str(&mut r, b);
            },
        }
        assert(views(r@) =~= git_args(self.remote_url@, self.branch@, *cmd));
        r
    }

    /// How to make sure the worktree exists: update it when its `.git` is
    /// there; else clone, moving an existing directory aside first.
    pub fn ensure_plan(git_dir_exists: bool, path_exists: bool) -> (r: EnsurePlan)
        ensures
            git_dir_exists ==> r == EnsurePlan::Update,
            !git_dir_exists ==> r == (EnsurePlan::Clone { backup: path_exists }),
    {
        if git_dir_exists {
            EnsurePlan::Update
        } else {
            EnsurePlan::Clone { backup: path_exists }
        }
    }

    /// Records the HEAD just read.
    pub fn record_head(&mut self, head: String)
        ensures
            final(self).current_commit == Some(head),
            final(self).path == old(self).path,
            final(self).remote_url == old(self).remote_url,
            final(self).branch == old(self).branch,
            final(self).ssh_key == old(self).ssh_key,
    {
        self.current_commit = Some(head);
    }
}

/// A commit hash or branch name as git prints it: the output, trimmed.
pub fn output_value(stdout: &str) -> (r: String)
    ensures
        r@ == trimmed(stdout@),
{
    let t = trim(chars_of(stdout).as_slice());
    text_of(t.as_slice())
}

/// A failed pull is a merge conflict when git's message says `CONFLICT` or
/// `Automatic merge failed`; the worktree is then reset to the pre-pull HEAD.
pub fn classify_pull_failure(message: &str) -> (r: GitError)
    ensures
        is_conflict(message@) ==> r == GitError::MergeConflict,
        !is_conflict(message@) ==> r == GitError::PullFailed,
{
    let m = chars_of(message);
    let conflict = chars_of("CONFLICT");
    let automatic = chars_of("Automatic merge failed");
    if includes(m.as_slice(), conflict.as_slice()) || includes(m.as_slice(), automatic.as_slice()) {
        GitError::MergeConflict
    } else {
        GitError::PullFailed
    }
}

/// Relies on `std::path::Path::exists`: whether the path names something on
/// disk right now. Nothing is promised of the answer.
#[verifier::external_body]
fn path_exists(p: &str) -> bool {
    std::path::Path::new(p).exists()
}

} // verus!
