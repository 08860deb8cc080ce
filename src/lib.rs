//! Synchronises local clones of every repository of a hosted project: the
//! resolution of clone links, the reading of a local path's state, the choice
//! of the branch to check out, and the per-repository state machine that
//! sequences cloning, checkout and pull.

pub mod links;
pub mod probe;
pub mod refs;
pub mod sync;
