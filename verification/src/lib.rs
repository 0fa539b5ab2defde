//! Disk-usage inspection over a filesystem snapshot.
//!
//! The library works on `FsNode`, an in-memory snapshot of a filesystem
//! subtree in which every node is classified by its own link metadata
//! (symbolic links are never followed, at any depth). A caller that reads
//! the real filesystem builds an `FsNode` and hands it in; the three
//! operations `ls`, `ls_rec` and `size` then are pure functions of that
//! snapshot.

pub mod laws;
pub mod model;
pub mod ops;
pub mod shell;

pub use model::FsError;
pub use model::FsNode;
pub use ops::ls;
pub use ops::ls_rec;
pub use ops::size;
