//! A disk-cleanup engine: filtered scanning of a directory tree's entries,
//! batch deletion with failure accumulation, and pruning of directories
//! that a deletion left empty.
//!
//! The engine never touches the filesystem itself. A driver walks the tree,
//! moves paths to the trash and removes directories; the engine is handed
//! what the driver saw and decides what is matched, what is reported and
//! what is done next.

pub mod cleanup;
pub mod cleanup_facts;
pub mod entry;
pub mod filter;
pub mod ident;
pub mod options;
pub mod paths;
pub mod prune;
pub mod scan;
pub mod scan_facts;
pub mod text;

pub use crate::cleanup::{
    CleanProgress, Cleanup, CleanupAction, CleanupError, CleanupEvent, DeletionFailure,
};
pub use crate::entry::{EntryClass, EntryMeta, WalkEntry};
pub use crate::options::ScanOptions;
pub use crate::prune::{PruneAction, PruneEvent, Pruner};
pub use crate::scan::{FileInfo, RootProbe, ScanError, ScanProgress, ScanResult, Scanner};
