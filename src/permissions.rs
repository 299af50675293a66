//! The host-side permissions policy: the owner and mode each entry of a
//! worktree should have.
use vstd::prelude::*;
use crate::text::{chars_of, ends_with, matches_at};

verus! {

#[derive(Debug, Clone, Copy, PartialEq, Eq, Structural)]
pub enum EntryKind {
    Dir,
    File,
    /// Symbolic links are not followed, nor changed.
    Symlink,
}

/// An entry of a tree as the policy sees it.
#[derive(Debug, Clone, PartialEq, Eq)]
pub struct FsEntry {
    pub name: String,
    pub kind: EntryKind,
    pub mode: u32,
    pub user: String,
    pub group: String,
}

/// Who owns a service's files.
#[derive(Debug, Clone, PartialEq, Eq)]
pub struct PermissionPolicy {
    pub user: String,
    pub group: String,
}

/// The mode an entry should have: directories and shell scripts 0750, other
/// files 0640; links keep theirs.
pub open spec fn target_mode(kind: EntryKind, name: Seq<char>, mode: u32) -> u32 {
    match kind {
        EntryKind::Dir => 0o750,
        EntryKind::File => if ends_with(name, ".sh"@) {
            0o750
        } else {
            0o640
        },
        EntryKind::Symlink => mode,
    }
}

/// The entry after the policy: mode as above, owned by the policy's user and
/// group (links untouched).
pub open spec fn fixed(p: PermissionPolicy, e: FsEntry) -> FsEntry {
    match e.kind {
        EntryKind::Symlink => e,
        _ => FsEntry {
            mode: target_mode(e.kind, e.name@, e.mode),
            user: p.user,
            group: p.group,
            ..e
        },
    }
}

impl PermissionPolicy {
    /// The mode an entry should have (`None` for a link, which is left alone).
    pub fn mode_for(&self, kind: EntryKind, name: &str) -> (r: Option<u32>)
        ensures
            kind == EntryKind::Symlink ==> r is None,
            kind != EntryKind::Symlink ==> r == Some(target_mode(kind, name@, 0)),
    {
        match kind {
            EntryKind::Dir => Some(0o750),
            EntryKind::File => {
                let cs = chars_of(name);
                let sh = chars_of(".sh");
                if sh.len() <= cs.len() && matches_at(
                    cs.as_slice(),
                    sh.as_slice(),
                    cs.len() - sh.len(),
                ) {
                    Some(0o750)
                } else {
                    Some(0o640)
                }
            },
            EntryKind::Symlink => None,
        }
    }

    /// An entry as the policy leaves it.
    pub fn fix_entry(&self, e: &FsEntry) -> (r: FsEntry)
        ensures
            r == fixed(*self, *e),
    {
        match self.mode_for(e.kind, e.name.as_str()) {
            None => FsEntry {
                name: e.name.clone(),
                kind: e.kind,
                mode: e.mode,
                user: e.user.clone(),
                group: e.group.clone(),
            },
            Some(mode) => FsEntry {
                name: e.name.clone(),
                kind: e.kind,
                mode,
                user: self.user.clone(),
                group: self.group.clone(),
            },
        }
    }
}

/// Applying the policy twice leaves every entry as applying it once does:
/// the same mode and the same owner.
pub proof fn lemma_fix_idempotent(p: PermissionPolicy, e: FsEntry)
    ensures
        fixed(p, fixed(p, e)) == fixed(p, e),
{
}

} // verus!
