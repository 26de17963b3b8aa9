//! Options, progress and results of directory moves.
use vstd::prelude::*;

use super::common::DestinationDirectoryRule;
use super::copy::{BrokenSymlinkBehaviour, SymlinkBehaviour};
use super::execution::{DirectoryCopyInternalProgress, DirectoryCopyOperation};
use crate::file::{
    FileProgress, DEFAULT_PROGRESS_UPDATE_BYTE_INTERVAL, DEFAULT_READ_BUFFER_SIZE,
    DEFAULT_WRITE_BUFFER_SIZE,
};

verus! {

/// Options for the copy-and-delete strategy when moving a directory.
#[derive(Clone, Copy, PartialEq, Eq, Debug, Structural)]
pub struct DirectoryMoveByCopyOptions {
    /// The behaviour for symbolic links when moving a directory by copy-and-delete.
    pub symlink_behaviour: SymlinkBehaviour,
    /// The behaviour for broken symbolic links when moving a directory by copy-and-delete.
    pub broken_symlink_behaviour: BrokenSymlinkBehaviour,
}

impl Default for DirectoryMoveByCopyOptions {
    /// Symbolic links are kept, and broken symbolic links are kept broken.
    fn default() -> (r: Self)
        ensures
            r.symlink_behaviour == SymlinkBehaviour::Keep,
            r.broken_symlink_behaviour == BrokenSymlinkBehaviour::Keep,
    {
        Self { symlink_behaviour: SymlinkBehaviour::Keep, broken_symlink_behaviour: BrokenSymlinkBehaviour::Keep }
    }
}

/// The allowed strategies for moving a directory; at least one is always enabled.
#[derive(Clone, Copy, PartialEq, Eq, Debug, Structural)]
pub enum DirectoryMoveAllowedStrategies {
    /// Only renaming; a failed rename is an error.
    OnlyRename,
    /// Only copying and deleting.
    OnlyCopyAndDelete {
        /// Options for the copy-and-delete strategy.
        options: DirectoryMoveByCopyOptions,
    },
    /// Renaming when possible, copying and deleting otherwise.
    Either {
        /// Options for the copy-and-delete strategy.
        copy_and_delete_options: DirectoryMoveByCopyOptions,
    },
}

impl DirectoryMoveAllowedStrategies {
    /// Whether the strategies include moving by rename.
    pub open spec fn may_rename(self) -> bool {
        self is OnlyRename || self is Either
    }

    /// The copy-and-delete options, when the strategies include copying and deleting.
    pub open spec fn copy_and_delete(self) -> Option<DirectoryMoveByCopyOptions> {
        match self {
            DirectoryMoveAllowedStrategies::OnlyRename => None,
            DirectoryMoveAllowedStrategies::OnlyCopyAndDelete { options } => Some(options),
            DirectoryMoveAllowedStrategies::Either { copy_and_delete_options } => Some(copy_and_delete_options),
        }
    }

    /// Whether the strategies include moving by rename.
    pub fn allowed_to_rename(&self) -> (r: bool)
        ensures
            r == self.may_rename(),
    {
        match self {
            Self::OnlyRename | Self::Either { .. } => true,
            _ => false,
        }
    }

    /// The copy-and-delete options, when the strategies include copying and deleting.
    pub fn into_options_if_allowed_to_copy_and_delete(self) -> (r: Option<DirectoryMoveByCopyOptions>)
        ensures
            r == self.copy_and_delete(),
    {
        match self {
            DirectoryMoveAllowedStrategies::OnlyRename => None,
            DirectoryMoveAllowedStrategies::OnlyCopyAndDelete { options } => Some(options),
            DirectoryMoveAllowedStrategies::Either { copy_and_delete_options } => Some(copy_and_delete_options),
        }
    }
}

impl Default for DirectoryMoveAllowedStrategies {
    /// Both strategies, with the default copy-and-delete options.
    fn default() -> (r: Self)
        ensures
            r == (DirectoryMoveAllowedStrategies::Either {
                copy_and_delete_options: DirectoryMoveByCopyOptions {
                    symlink_behaviour: SymlinkBehaviour::Keep,
                    broken_symlink_behaviour: BrokenSymlinkBehaviour::Keep,
                },
            }),
    {
        Self::Either { copy_and_delete_options: DirectoryMoveByCopyOptions::default() }
    }
}

/// Options that influence a directory move.
#[derive(Clone, Copy, PartialEq, Eq, Debug, Structural)]
pub struct DirectoryMoveOptions {
    /// Whether the destination may exist before moving, and whether it must be empty.
    pub destination_directory_rule: DestinationDirectoryRule,
    /// The allowed move strategies, with per-strategy options.
    pub allowed_strategies: DirectoryMoveAllowedStrategies,
}

impl Default for DirectoryMoveOptions {
    /// An existing destination must be empty; both strategies are allowed.
    fn default() -> (r: Self)
        ensures
            r.destination_directory_rule == DestinationDirectoryRule::AllowEmpty,
            r.allowed_strategies == (DirectoryMoveAllowedStrategies::Either {
                copy_and_delete_options: DirectoryMoveByCopyOptions {
                    symlink_behaviour: SymlinkBehaviour::Keep,
                    broken_symlink_behaviour: BrokenSymlinkBehaviour::Keep,
                },
            }),
    {
        Self {
            destination_directory_rule: DestinationDirectoryRule::AllowEmpty,
            allowed_strategies: DirectoryMoveAllowedStrategies::default(),
        }
    }
}

/// How a directory was moved.
#[derive(Clone, Copy, PartialEq, Eq, Debug, Structural)]
pub enum DirectoryMoveStrategy {
    /// The source directory was renamed to the destination.
    Rename,
    /// The source directory was copied to the destination and removed afterwards.
    CopyAndDelete,
}

/// Describes a successful directory move.
#[derive(Clone, Copy, PartialEq, Eq, Debug, Structural)]
pub struct DirectoryMoveFinished {
    /// Total number of bytes moved.
    pub total_bytes_moved: u64,
    /// Number of files moved.
    pub files_moved: usize,
    /// Number of symlinks moved.
    pub symlinks_moved: usize,
    /// Number of directories moved.
    pub directories_moved: usize,
    /// How the directory was moved.
    pub strategy_used: DirectoryMoveStrategy,
}

/// Options for the copy-and-delete strategy of a directory move with progress reporting.
#[derive(Clone, Copy, PartialEq, Eq, Debug, Structural)]
pub struct DirectoryMoveWithProgressByCopyOptions {
    /// The behaviour for symbolic links.
    pub symlink_behaviour: SymlinkBehaviour,
    /// The behaviour for broken symbolic links.
    pub broken_symlink_behaviour: BrokenSymlinkBehaviour,
    /// Internal buffer size used for reading from source files.
    pub read_buffer_size: usize,
    /// Internal buffer size used for writing to destination files.
    pub write_buffer_size: usize,
    /// Minimum amount of bytes written between two consecutive progress reports.
    pub progress_update_byte_interval: u64,
}

impl Default for DirectoryMoveWithProgressByCopyOptions {
    /// Links are kept (broken ones too); 64 KiB buffers; a report at least every 512 KiB.
    fn default() -> (r: Self)
        ensures
            r.symlink_behaviour == SymlinkBehaviour::Keep,
            r.broken_symlink_behaviour == BrokenSymlinkBehaviour::Keep,
            r.read_buffer_size == DEFAULT_READ_BUFFER_SIZE,
            r.write_buffer_size == DEFAULT_WRITE_BUFFER_SIZE,
            r.progress_update_byte_interval == DEFAULT_PROGRESS_UPDATE_BYTE_INTERVAL,
    {
        Self {
            symlink_behaviour: SymlinkBehaviour::Keep,
            broken_symlink_behaviour: BrokenSymlinkBehaviour::Keep,
            read_buffer_size: DEFAULT_READ_BUFFER_SIZE,
            write_buffer_size: DEFAULT_WRITE_BUFFER_SIZE,
            progress_update_byte_interval: DEFAULT_PROGRESS_UPDATE_BYTE_INTERVAL,
        }
    }
}

/// The allowed strategies for moving a directory with progress reporting.
#[derive(Clone, Copy, PartialEq, Eq, Debug, Structural)]
pub enum DirectoryMoveWithProgressAllowedStrategies {
    /// Only renaming; a failed rename is an error.
    OnlyRename,
    /// Only copying and deleting.
    OnlyCopyAndDelete {
        /// Options for the copy-and-delete strategy.
        options: DirectoryMoveWithProgressByCopyOptions,
    },
    /// Renaming when possible, copying and deleting otherwise.
    Either {
        /// Options for the copy-and-delete strategy.
        copy_and_delete_options: DirectoryMoveWithProgressByCopyOptions,
    },
}

impl DirectoryMoveWithProgressAllowedStrategies {
    /// Whether the strategies include moving by rename.
    pub open spec fn may_rename(self) -> bool {
        self is OnlyRename || self is Either
    }

    /// The copy-and-delete options, when the strategies include copying and deleting.
    pub open spec fn copy_and_delete(self) -> Option<DirectoryMoveWithProgressByCopyOptions> {
        match self {
            DirectoryMoveWithProgressAllowedStrategies::OnlyRename => None,
            DirectoryMoveWithProgressAllowedStrategies::OnlyCopyAndDelete { options } => Some(options),
            DirectoryMoveWithProgressAllowedStrategies::Either { copy_and_delete_options } => Some(copy_and_delete_options),
        }
    }

    /// Whether the strategies include moving by rename.
    pub fn allowed_to_rename(&self) -> (r: bool)
        ensures
            r == self.may_rename(),
    {
        match self {
            Self::OnlyRename | Self::Either { .. } => true,
            _ => false,
        }
    }

    /// The copy-and-delete options, when the strategies include copying and deleting.
    pub fn into_options_if_allowed_to_copy_and_delete(self) -> (r: Option<DirectoryMoveWithProgressByCopyOptions>)
        ensures
            r == self.copy_and_delete(),
    {
        match self {
            DirectoryMoveWithProgressAllowedStrategies::OnlyRename => None,
            DirectoryMoveWithProgressAllowedStrategies::OnlyCopyAndDelete { options } => Some(options),
            DirectoryMoveWithProgressAllowedStrategies::Either { copy_and_delete_options } => Some(copy_and_delete_options),
        }
    }
}

impl Default for DirectoryMoveWithProgressAllowedStrategies {
    /// Both strategies, with the default copy-and-delete options.
    fn default() -> (r: Self)
        ensures
            r matches DirectoryMoveWithProgressAllowedStrategies::Either { copy_and_delete_options: o }
                && o.symlink_behaviour == SymlinkBehaviour::Keep
                && o.broken_symlink_behaviour == BrokenSymlinkBehaviour::Keep
                && o.read_buffer_size == DEFAULT_READ_BUFFER_SIZE
                && o.write_buffer_size == DEFAULT_WRITE_BUFFER_SIZE
                && o.progress_update_byte_interval == DEFAULT_PROGRESS_UPDATE_BYTE_INTERVAL,
    {
        Self::Either { copy_and_delete_options: DirectoryMoveWithProgressByCopyOptions::default() }
    }
}

/// Options that influence a directory move with progress reporting.
#[derive(Clone, Copy, PartialEq, Eq, Debug, Structural)]
pub struct DirectoryMoveWithProgressOptions {
    /// Whether the destination may exist before moving, and whether it must be empty.
    pub destination_directory_rule: DestinationDirectoryRule,
    /// The allowed move strategies, with per-strategy options.
    pub allowed_strategies: DirectoryMoveWithProgressAllowedStrategies,
}

impl Default for DirectoryMoveWithProgressOptions {
    /// An existing destination must be empty; both strategies are allowed.
    fn default() -> (r: Self)
        ensures
            r.destination_directory_rule == DestinationDirectoryRule::AllowEmpty,
            r.allowed_strategies matches DirectoryMoveWithProgressAllowedStrategies::Either { copy_and_delete_options: o }
                && o.symlink_behaviour == SymlinkBehaviour::Keep
                && o.broken_symlink_behaviour == BrokenSymlinkBehaviour::Keep
                && o.read_buffer_size == DEFAULT_READ_BUFFER_SIZE
                && o.write_buffer_size == DEFAULT_WRITE_BUFFER_SIZE
                && o.progress_update_byte_interval == DEFAULT_PROGRESS_UPDATE_BYTE_INTERVAL,
    {
        Self {
            destination_directory_rule: DestinationDirectoryRule::AllowEmpty,
            allowed_strategies: DirectoryMoveWithProgressAllowedStrategies::default(),
        }
    }
}

/// Describes a directory move operation, for progress reporting.
#[derive(Clone, PartialEq, Eq, Debug)]
pub enum DirectoryMoveOperation {
    /// A directory is being created.
    CreatingDirectory {
        /// Path to the directory that is being created.
        target_path: String,
    },
    /// A file is being copied.
    CopyingFile {
        /// Path to the file that is being created.
        target_path: String,
        /// Progress of the file copy.
        progress: FileProgress,
    },
    /// A symbolic link is being created.
    CreatingSymbolicLink {
        /// Path to the symbolic link being created.
        destination_symbolic_link_file_path: String,
    },
    /// The source directory is being removed.
    RemovingSourceDirectory,
}

/// Directory moving progress.
#[derive(Clone, PartialEq, Eq, Debug)]
pub struct DirectoryMoveProgress {
    /// Total number of bytes that need to be moved.
    pub bytes_total: u64,
    /// Number of bytes that have been moved so far.
    pub bytes_finished: u64,
    /// Number of files that have been moved so far.
    pub files_moved: usize,
    /// Number of directories that have been created so far.
    pub directories_created: usize,
    /// The current operation being performed.
    pub current_operation: DirectoryMoveOperation,
    /// The index of the current operation (starts at `0`).
    pub current_operation_index: usize,
    /// The total amount of operations that need to be performed.
    pub total_operations: usize,
}

/// The move operation that a copy operation stands for.
pub open spec fn move_operation_of(operation: DirectoryCopyOperation) -> DirectoryMoveOperation {
    match operation {
        DirectoryCopyOperation::CreatingDirectory { destination_directory_path } => {
            DirectoryMoveOperation::CreatingDirectory { target_path: destination_directory_path }
        },
        DirectoryCopyOperation::CopyingFile { destination_file_path, progress } => {
            DirectoryMoveOperation::CopyingFile { target_path: destination_file_path, progress }
        },
        DirectoryCopyOperation::CreatingSymbolicLink { destination_symbolic_link_file_path } => {
            DirectoryMoveOperation::CreatingSymbolicLink { destination_symbolic_link_file_path }
        },
    }
}

/// The move progress that the progress of a copy stands for, once an operation has started.
pub open spec fn move_progress_of(progress: DirectoryCopyInternalProgress) -> Option<DirectoryMoveProgress> {
    match (progress.current_operation, progress.current_operation_index) {
        (Some(operation), Some(index)) => Some(DirectoryMoveProgress {
            bytes_total: progress.bytes_total,
            bytes_finished: progress.bytes_finished,
            files_moved: progress.files_copied,
            directories_created: progress.directories_created,
            current_operation: move_operation_of(operation),
            current_operation_index: index,
            total_operations: progress.total_operations.saturating_add(1),
        }),
        _ => None,
    }
}

/// The move progress reported when the source directory is removed, after the copy whose
/// progress is `progress`: the removal is the last operation, counted after the copy's.
pub open spec fn removal_progress(progress: DirectoryCopyInternalProgress) -> DirectoryMoveProgress {
    DirectoryMoveProgress {
        bytes_total: progress.bytes_total,
        bytes_finished: progress.bytes_finished,
        files_moved: progress.files_copied,
        directories_created: progress.directories_created,
        current_operation: DirectoryMoveOperation::RemovingSourceDirectory,
        current_operation_index: progress.total_operations,
        total_operations: progress.total_operations.saturating_add(1),
    }
}

/// The move progress reported when the source directory is removed, after the copy whose
/// progress is `progress`.
pub fn removal_progress_of(progress: &DirectoryCopyInternalProgress) -> (r: DirectoryMoveProgress)
    ensures
        r == removal_progress(*progress),
{
    DirectoryMoveProgress {
        bytes_total: progress.bytes_total,
        bytes_finished: progress.bytes_finished,
        files_moved: progress.files_copied,
        directories_created: progress.directories_created,
        current_operation: DirectoryMoveOperation::RemovingSourceDirectory,
        current_operation_index: progress.total_operations,
        total_operations: progress.total_operations.saturating_add(1),
    }
}

/// The move progress that the progress of a copy stands for, once an operation has started.
pub fn move_progress_from_copy_progress(progress: &DirectoryCopyInternalProgress) -> (r: Option<DirectoryMoveProgress>)
    ensures
        r == move_progress_of(*progress),
{
    match (&progress.current_operation, progress.current_operation_index) {
        (Some(operation), Some(index)) => {
            let current_operation = match operation {
                DirectoryCopyOperation::CreatingDirectory { destination_directory_path } => {
                    DirectoryMoveOperation::CreatingDirectory { target_path: destination_directory_path.clone() }
                },
                DirectoryCopyOperation::CopyingFile { destination_file_path, progress } => {
                    DirectoryMoveOperation::CopyingFile { target_path: destination_file_path.clone(), progress: *progress }
                },
                DirectoryCopyOperation::CreatingSymbolicLink { destination_symbolic_link_file_path } => {
                    DirectoryMoveOperation::CreatingSymbolicLink {
                        destination_symbolic_link_file_path: destination_symbolic_link_file_path.clone(),
                    }
                },
            };
            Some(DirectoryMoveProgress {
                bytes_total: progress.bytes_total,
                bytes_finished: progress.bytes_finished,
                files_moved: progress.files_copied,
                directories_created: progress.directories_created,
                current_operation,
                current_operation_index: index,
                total_operations: progress.total_operations.saturating_add(1),
            })
        },
        _ => None,
    }
}

} // verus!
