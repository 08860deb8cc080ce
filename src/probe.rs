use vstd::prelude::*;

verus! {

/// What a stat of a repository's path that does not follow symlinks found.
pub enum PathKind {
    /// Nothing is at the path.
    Missing,
    /// A directory is at the path.
    Directory,
    /// Something other than a directory is at the path (a file, a symlink).
    NotDirectory,
    /// The stat failed for another reason, described here.
    Unreadable(String),
}

/// Why a repository's local path cannot be used.
pub enum ConflictReason {
    /// The path exists but is not a directory.
    NotADirectory,
    /// The path could not be inspected.
    StatFailed(String),
}

/// How a repository stands on the local filesystem.
pub enum LocalState {
    Absent,
    PresentAsDirectory,
    Conflict(ConflictReason),
}

/// Classifies a repository's local path from what a stat of it found: a missing
/// path is absent, a directory is present, and anything else is a conflict.
pub fn probe_local_state(kind: PathKind) -> (r: LocalState)
    ensures
        match kind {
            PathKind::Missing => r is Absent,
            PathKind::Directory => r is PresentAsDirectory,
            PathKind::NotDirectory => r == LocalState::Conflict(ConflictReason::NotADirectory),
            PathKind::Unreadable(msg) => r == LocalState::Conflict(ConflictReason::StatFailed(msg)),
        },
{
    match kind {
        PathKind::Missing => LocalState::Absent,
        PathKind::Directory => LocalState::PresentAsDirectory,
        PathKind::NotDirectory => LocalState::Conflict(ConflictReason::NotADirectory),
        PathKind::Unreadable(msg) => LocalState::Conflict(ConflictReason::StatFailed(msg)),
    }
}

} // verus!
