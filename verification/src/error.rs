//! Error types of the library's operations.
mod directory;
mod file;

pub use directory::{
    CopyDirectoryError, CopyDirectoryExecutionError, CopyDirectoryPreparationError,
    DestinationDirectoryPathValidationError, DirectoryEmptinessScanError, DirectoryError,
    DirectoryExecutionPlanError, DirectoryScanError, DirectorySizeScanError, MoveDirectoryError,
    MoveDirectoryExecutionError, MoveDirectoryPreparationError,
    SourceDirectoryPathValidationError, SourceSubPathNotUnderBaseSourceDirectory,
};
pub use file::{FileError, FileRemoveError, FileSizeError};
