//! Options and results of directory copies.
use vstd::prelude::*;

use super::common::DestinationDirectoryRule;
use crate::file::{
    DEFAULT_PROGRESS_UPDATE_BYTE_INTERVAL, DEFAULT_READ_BUFFER_SIZE, DEFAULT_WRITE_BUFFER_SIZE,
};

verus! {

/// The maximum depth of a directory copy.
#[derive(Clone, Copy, PartialEq, Eq, Debug, Structural)]
pub enum DirectoryCopyDepthLimit {
    /// No depth limit: the entire directory tree is copied.
    Unlimited,
    /// Contents are copied down to the sub-directory at depth `maximum_depth`
    /// (`0`: only the entries directly inside the source directory).
    Limited {
        /// Maximum copy depth.
        maximum_depth: usize,
    },
}

/// Whether the contents of a directory at `depth` are copied under `limit`.
pub open spec fn descends_into(limit: DirectoryCopyDepthLimit, depth: usize) -> bool {
    match limit {
        DirectoryCopyDepthLimit::Unlimited => true,
        DirectoryCopyDepthLimit::Limited { maximum_depth } => depth < maximum_depth,
    }
}

/// Whether the contents of a directory at `depth` are copied under `limit`.
pub fn may_descend_into(limit: DirectoryCopyDepthLimit, depth: usize) -> (r: bool)
    ensures
        r == descends_into(limit, depth),
{
    match limit {
        DirectoryCopyDepthLimit::Unlimited => true,
        DirectoryCopyDepthLimit::Limited { maximum_depth } => depth < maximum_depth,
    }
}

/// How to behave when encountering symbolic links during directory copies or moves.
#[derive(Clone, Copy, PartialEq, Eq, Debug, Structural)]
pub enum SymlinkBehaviour {
    /// The symbolic link is recreated on the destination.
    Keep,
    /// The symbolic link is resolved and its destination's content is copied instead; a broken
    /// symbolic link is then always an error.
    Follow,
}

/// How to behave when encountering broken symbolic links during directory copies or moves
/// (only consulted with [`SymlinkBehaviour::Keep`]).
#[derive(Clone, Copy, PartialEq, Eq, Debug, Structural)]
pub enum BrokenSymlinkBehaviour {
    /// The broken symbolic link is recreated as-is.
    Keep,
    /// A broken symbolic link is an error while preparing the copy or move.
    Abort,
}

/// Options that influence a directory copy.
#[derive(Clone, Copy, PartialEq, Eq, Debug, Structural)]
pub struct DirectoryCopyOptions {
    /// Whether the destination may exist, and whether it must be empty.
    pub destination_directory_rule: DestinationDirectoryRule,
    /// Maximum depth of the source directory to copy.
    pub copy_depth_limit: DirectoryCopyDepthLimit,
    /// The behaviour for symbolic links.
    pub symlink_behaviour: SymlinkBehaviour,
    /// The behaviour for broken symbolic links.
    pub broken_symlink_behaviour: BrokenSymlinkBehaviour,
}

impl Default for DirectoryCopyOptions {
    /// An existing destination must be empty; no depth limit; links (broken ones too) are kept.
    fn default() -> (r: Self)
        ensures
            r.destination_directory_rule == DestinationDirectoryRule::AllowEmpty,
            r.copy_depth_limit == DirectoryCopyDepthLimit::Unlimited,
            r.symlink_behaviour == SymlinkBehaviour::Keep,
            r.broken_symlink_behaviour == BrokenSymlinkBehaviour::Keep,
    {
        Self {
            destination_directory_rule: DestinationDirectoryRule::AllowEmpty,
            copy_depth_limit: DirectoryCopyDepthLimit::Unlimited,
            symlink_behaviour: SymlinkBehaviour::Keep,
            broken_symlink_behaviour: BrokenSymlinkBehaviour::Keep,
        }
    }
}

/// Describes a successful directory copy.
#[derive(Clone, Copy, PartialEq, Eq, Debug, Structural)]
pub struct DirectoryCopyFinished {
    /// Total amount of bytes copied.
    pub total_bytes_copied: u64,
    /// Total number of files copied.
    pub files_copied: usize,
    /// Total number of symlinks (re)created.
    pub symlinks_created: usize,
    /// Total number of directories created.
    pub directories_created: usize,
}

/// Options that influence a directory copy with progress reporting.
#[derive(Clone, Copy, PartialEq, Eq, Debug, Structural)]
pub struct DirectoryCopyWithProgressOptions {
    /// Whether the destination may exist, and whether it must be empty.
    pub destination_directory_rule: DestinationDirectoryRule,
    /// Maximum depth of the source directory to copy.
    pub copy_depth_limit: DirectoryCopyDepthLimit,
    /// The behaviour for symbolic links.
    pub symlink_behaviour: SymlinkBehaviour,
    /// The behaviour for broken symbolic links.
    pub broken_symlink_behaviour: BrokenSymlinkBehaviour,
    /// Internal buffer size used for reading from source files.
    pub read_buffer_size: usize,
    /// Internal buffer size used for writing to destination files.
    pub write_buffer_size: usize,
    /// Minimum amount of bytes written between two consecutive progress reports.
    pub progress_update_byte_interval: u64,
}

impl Default for DirectoryCopyWithProgressOptions {
    /// An existing destination must be empty; no depth limit; links are kept, broken links
    /// are kept as they are; 64 KiB buffers; a report at least every 512 KiB.
    fn default() -> (r: Self)
        ensures
            r.destination_directory_rule == DestinationDirectoryRule::AllowEmpty,
            r.copy_depth_limit == DirectoryCopyDepthLimit::Unlimited,
            r.symlink_behaviour == SymlinkBehaviour::Keep,
            r.broken_symlink_behaviour == BrokenSymlinkBehaviour::Keep,
            r.read_buffer_size == DEFAULT_READ_BUFFER_SIZE,
            r.write_buffer_size == DEFAULT_WRITE_BUFFER_SIZE,
            r.progress_update_byte_interval == DEFAULT_PROGRESS_UPDATE_BYTE_INTERVAL,
    {
        Self {
            destination_directory_rule: DestinationDirectoryRule::AllowEmpty,
            copy_depth_limit: DirectoryCopyDepthLimit::Unlimited,
            symlink_behaviour: SymlinkBehaviour::Keep,
            broken_symlink_behaviour: BrokenSymlinkBehaviour::Keep,
            read_buffer_size: DEFAULT_READ_BUFFER_SIZE,
            write_buffer_size: DEFAULT_WRITE_BUFFER_SIZE,
            progress_update_byte_interval: DEFAULT_PROGRESS_UPDATE_BYTE_INTERVAL,
        }
    }
}

} // verus!
