//! A directory-watching extraction engine, verified.
//!
//! The library is the decision core of the engine: which file names are
//! candidate archives, how a destination directory is derived from a source
//! path, how name collisions are resolved by renaming the source aside, how
//! the per-format extraction of an archive's bytes is planned so that no
//! entry escapes its destination, when a polled file counts as stable, and
//! how a worker walks a task from dequeue to cleanup. The surrounding
//! process (filesystem probes, the watcher, the worker threads) performs the
//! actions this core decides on.

pub mod chars;
pub mod decode;
pub mod entries;
pub mod extract;
pub mod gate;
pub mod names;
pub mod paths;
pub mod platform;
pub mod resolve;
pub mod shutdown;
pub mod variant;
pub mod worker;
