//! Reconstructs the version-controlled test data of a package from a pack
//! stream, anchored to the commit recorded when the package was published.
//!
//! Every interaction with the `git` binary is described here as data: an
//! [`invocation::Invocation`] says what to run, and the orchestration of the
//! compound operations (packing, initialising a bare store, checking out a
//! worktree) is written as state machines that take the outcome of each run and decide
//! the next one. Running the processes, taking file locks and talking to the
//! network is left to the caller.
pub mod commit;
pub mod pathspec;
pub mod invocation;
pub mod diagnosis;
pub mod fspath;
pub mod workcopy;
pub mod store;
pub mod download;
pub mod args;
