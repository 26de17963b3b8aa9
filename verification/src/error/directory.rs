//! Errors of directory operations.
use vstd::prelude::*;

use super::FileError;
use crate::directory::DestinationDirectoryRule;

verus! {

/// Source directory path validation error.
#[derive(Debug)]
pub enum SourceDirectoryPathValidationError {
    /// The source directory does not exist.
    NotFound {
        /// Source directory path.
        directory_path: String,
    },
    /// The source path exists, but does not point to a directory.
    NotADirectory {
        /// The source path that was supposed to be a directory.
        path: String,
    },
    /// The source directory could not be read, or its path could not be canonicalized.
    UnableToAccess {
        /// The exact path we are unable to access.
        directory_path: String,
        /// IO error describing why the source directory could not be accessed.
        error: std::io::Error,
    },
}

/// Destination directory path validation error.
#[derive(Debug)]
pub enum DestinationDirectoryPathValidationError {
    /// The destination path exists, but does not point to a directory.
    NotADirectory {
        /// Destination directory path.
        directory_path: String,
    },
    /// The destination directory could not be read, or its path could not be canonicalized.
    UnableToAccess {
        /// The exact path we were unable to access.
        directory_path: String,
        /// IO error describing why the destination directory could not be accessed.
        error: std::io::Error,
    },
    /// The destination directory already exists, which is against the provided rule.
    AlreadyExists {
        /// Path of the destination directory that should not exist.
        path: String,
        /// The rule in effect.
        destination_directory_rule: DestinationDirectoryRule,
    },
    /// The destination directory is not empty, which is against the provided rule.
    NotEmpty {
        /// Path of the destination directory that should be empty.
        directory_path: String,
        /// The rule in effect.
        destination_directory_rule: DestinationDirectoryRule,
    },
    /// The destination directory path equals or points inside the source directory.
    DescendantOfSourceDirectory {
        /// Destination directory path.
        destination_directory_path: String,
        /// Source directory path.
        source_directory_path: String,
    },
}

/// An error that can occur while planning a directory copy.
#[derive(Debug)]
pub enum DirectoryExecutionPlanError {
    /// A path could not be accessed.
    UnableToAccess {
        /// The path that could not be accessed.
        path: String,
        /// Underlying IO error.
        error: std::io::Error,
    },
    /// An entry inside the source directory "escaped" outside of it.
    EntryEscapesSourceDirectory {
        /// The path that escaped the source directory.
        path: String,
    },
    /// A destination directory or file already exists, against the rule in effect.
    DestinationItemAlreadyExists {
        /// The path that already exists.
        path: String,
    },
    /// A symbolic link inside the source directory is broken, and the behaviour is set to abort.
    SymbolicLinkIsBroken {
        /// Path of the broken symbolic link.
        path: String,
    },
}

/// A path that was expected to lie under a base source directory, but does not.
#[derive(Debug)]
pub struct SourceSubPathNotUnderBaseSourceDirectory {
    /// The offending path (joined onto the base directory path).
    pub path: String,
}

/// An error that can occur while preparing a directory copy.
#[derive(Debug)]
pub enum CopyDirectoryPreparationError {
    /// The source directory is invalid.
    SourceDirectoryValidationError(SourceDirectoryPathValidationError),
    /// The destination directory is invalid.
    DestinationDirectoryValidationError(DestinationDirectoryPathValidationError),
    /// Planning the copy failed.
    CopyPlanningError(DirectoryExecutionPlanError),
}

/// An error that can occur while executing a directory copy.
#[derive(Debug)]
pub enum CopyDirectoryExecutionError {
    /// A directory could not be created.
    UnableToCreateDirectory {
        /// The directory that could not be created.
        directory_path: String,
        /// Underlying IO error.
        error: std::io::Error,
    },
    /// A destination path could not be accessed.
    UnableToAccessDestination {
        /// The path that could not be accessed.
        path: String,
        /// Underlying IO error.
        error: std::io::Error,
    },
    /// A file could not be copied.
    FileCopyError {
        /// The destination file path.
        file_path: String,
        /// The file copying error.
        error: FileError,
    },
    /// A symbolic link could not be created.
    SymlinkCreationError {
        /// The path of the symbolic link.
        symlink_path: String,
        /// Underlying IO error.
        error: std::io::Error,
    },
    /// A destination entry appeared or changed since the preparation phase.
    DestinationEntryUnexpected {
        /// The unexpected path.
        path: String,
    },
}

/// An error that can occur when copying a directory.
#[derive(Debug)]
pub enum CopyDirectoryError {
    /// Preparation failed; the destination has not been changed.
    PreparationError(CopyDirectoryPreparationError),
    /// Execution failed; the destination may be in an unpredictable state.
    ExecutionError(CopyDirectoryExecutionError),
}

/// An error that can occur while preparing a directory move.
#[derive(Debug)]
pub enum MoveDirectoryPreparationError {
    /// The source directory is invalid.
    SourceDirectoryValidationError(SourceDirectoryPathValidationError),
    /// The destination directory is invalid.
    DestinationDirectoryValidationError(DestinationDirectoryPathValidationError),
    /// Scanning the source directory failed.
    DirectoryScanError(DirectoryScanError),
    /// Planning the fallback copy failed.
    CopyPlanningError(DirectoryExecutionPlanError),
}

/// An error that can occur while executing a directory move.
#[derive(Debug)]
pub enum MoveDirectoryExecutionError {
    /// A source path could not be accessed (or removed).
    UnableToAccessSource {
        /// The path that could not be accessed.
        path: String,
        /// Underlying IO error.
        error: std::io::Error,
    },
    /// An entry inside the source directory "escaped" outside of it.
    EntryEscapesSourceDirectory {
        /// The escaped path.
        path: String,
    },
    /// A destination entry appeared or changed since the preparation phase.
    DestinationEntryUnexpected {
        /// The unexpected path.
        path: String,
    },
    /// The copy of the copy-and-delete strategy failed.
    CopyDirectoryError(CopyDirectoryExecutionError),
    /// Renaming was the only allowed strategy, and renaming was impossible or failed.
    RenameFailedAndNoFallbackStrategy,
    /// An uncategorized unrecoverable IO error.
    OtherIoError {
        /// Underlying IO error.
        error: std::io::Error,
    },
}

/// An error that can occur when moving a directory.
#[derive(Debug)]
pub enum MoveDirectoryError {
    /// Preparation failed.
    PreparationError(MoveDirectoryPreparationError),
    /// Execution failed.
    ExecutionError(MoveDirectoryExecutionError),
}

/// An error that can occur when querying the size of a directory or of a scan.
#[derive(Debug)]
pub enum DirectorySizeScanError {
    /// Scanning the directory failed.
    ScanError {
        /// The scanning error.
        error: DirectoryScanError,
        /// Base directory path of the scan.
        directory_path: String,
    },
    /// A scanned entry no longer exists (or changed its type).
    ScanEntryNoLongerExists {
        /// The path of the entry.
        path: String,
    },
    /// A scanned file could not be accessed.
    UnableToAccessFile {
        /// The path of the file.
        file_path: String,
        /// Underlying IO error.
        error: std::io::Error,
    },
    /// An uncategorized unrecoverable IO error.
    OtherIoError {
        /// Underlying IO error.
        error: std::io::Error,
    },
}

/// An error that can occur when checking whether a directory is empty.
#[derive(Debug)]
pub enum DirectoryEmptinessScanError {
    /// The path doesn't exist.
    NotFound {
        /// The path.
        path: String,
    },
    /// The path exists, but is not a directory.
    NotADirectory {
        /// The path.
        path: String,
    },
    /// The directory could not be read.
    UnableToReadDirectory {
        /// The directory path.
        directory_path: String,
        /// Underlying IO error.
        error: std::io::Error,
    },
    /// An entry of the directory could not be read.
    UnableToReadDirectoryEntry {
        /// The directory path.
        directory_path: String,
        /// Underlying IO error.
        error: std::io::Error,
    },
}

/// An error that can occur when scanning a directory.
#[derive(Debug)]
pub enum DirectoryScanError {
    /// The path doesn't exist.
    NotFound {
        /// The path.
        path: String,
    },
    /// The path exists, but is not a directory.
    NotADirectory {
        /// The path.
        path: String,
    },
    /// A directory could not be read.
    UnableToReadDirectory {
        /// The directory path.
        directory_path: String,
        /// Underlying IO error.
        error: std::io::Error,
    },
    /// An entry of a directory could not be read.
    UnableToReadDirectoryEntry {
        /// The directory path.
        directory_path: String,
        /// Underlying IO error.
        error: std::io::Error,
    },
    /// A symbolic link inside the scan tree leads back to one of its own ancestors.
    SymlinkCycleEncountered {
        /// The directory path at which the cycle was detected.
        directory_path: String,
    },
}

/// Error of the older, coarse-grained directory copy and move interface.
#[derive(Debug)]
pub enum DirectoryError {
    /// The root source directory cannot be found.
    SourceRootDirectoryNotFound,
    /// The provided source directory path is not a directory.
    SourceRootDirectoryIsNotADirectory,
    /// A directory or file in the source directory disappeared since it was scanned.
    SourceItemNotFound,
    /// Canonicalization or another path-related error.
    PathError {
        /// Underlying IO error.
        error: std::io::Error,
    },
    /// A source directory or file cannot be accessed.
    UnableToAccessSource {
        /// Underlying IO error.
        error: std::io::Error,
    },
    /// A target directory or file cannot be created or written to.
    UnableToAccessTarget {
        /// Underlying IO error.
        error: std::io::Error,
    },
    /// The target directory or file already exists.
    TargetItemAlreadyExists,
    /// The source and target directory paths point to the same directory.
    SourceAndTargetAreTheSame,
    /// A scanned subdirectory's path is not inside the root directory.
    SubdirectoryEscapesRoot,
    /// Some other IO error was encountered.
    OtherIoError {
        /// Underlying IO error.
        error: std::io::Error,
    },
}

} // verus!
