//! Errors of file operations.
use vstd::prelude::*;

verus! {

/// An error that can occur when copying or moving a file.
#[derive(Debug)]
pub enum FileError {
    /// The provided source file path does not exist.
    SourceFileNotFound {
        /// The path that does not exist.
        path: String,
    },
    /// The provided source file path exists, but is not a file.
    SourcePathNotAFile {
        /// The path that exists, but is not a file.
        path: String,
    },
    /// The source file cannot be accessed or canonicalized, for example due to missing permissions.
    UnableToAccessSourceFile {
        /// File path that could not be accessed.
        path: String,
        /// Underlying IO error describing why the source file could not be accessed.
        error: std::io::Error,
    },
    /// The destination file already exists.
    DestinationPathAlreadyExists {
        /// Destination file path that already exists.
        path: String,
    },
    /// The destination file cannot be accessed, written to, or its path canonicalized.
    UnableToAccessDestinationFile {
        /// File path that could not be accessed.
        path: String,
        /// Underlying IO error describing why the destination file could not be accessed.
        error: std::io::Error,
    },
    /// The source and destination file paths point to the same file.
    SourceAndDestinationAreTheSame {
        /// The canonical path of the file.
        path: String,
    },
    /// An uncategorized unrecoverable IO error.
    OtherIoError {
        /// IO error describing the cause of the outer error.
        error: std::io::Error,
    },
}

/// An error that can occur when removing a file.
#[derive(Debug)]
pub enum FileRemoveError {
    /// The file does not exist.
    NotFound {
        /// The path that does not exist.
        path: String,
    },
    /// The path exists, but is not a file (nor a symbolic link to one).
    NotAFile {
        /// The path that exists, but is not a file.
        path: String,
    },
    /// The file could not be accessed.
    UnableToAccessFile {
        /// The path that could not be accessed.
        path: String,
        /// Underlying IO error.
        error: std::io::Error,
    },
    /// An uncategorized unrecoverable IO error.
    OtherIoError {
        /// Underlying IO error.
        error: std::io::Error,
    },
}

/// An error that can occur when querying the size of a file.
#[derive(Debug)]
pub enum FileSizeError {
    /// The file does not exist.
    NotFound {
        /// The path that does not exist.
        path: String,
    },
    /// The path exists, but is not a file nor a symbolic link to one.
    NotAFile {
        /// The path that exists, but is not a file.
        path: String,
    },
    /// The file could not be accessed.
    UnableToAccessFile {
        /// The path that could not be accessed.
        file_path: String,
        /// Underlying IO error.
        error: std::io::Error,
    },
    /// An uncategorized unrecoverable IO error.
    OtherIoError {
        /// Underlying IO error.
        error: std::io::Error,
    },
}

} // verus!
