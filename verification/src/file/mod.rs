//! File copying, moving, sizing and removal operations.
use vstd::prelude::*;

mod copy;
mod moving;
mod progress;
mod remove;
mod size;
mod transfer;

pub use copy::{
    copy_file, copy_file_with_progress, copy_finished_of, CopyFileFinished, CopyFileOptions, CopyFileWithProgressOptions,
    DEFAULT_PROGRESS_UPDATE_BYTE_INTERVAL, DEFAULT_READ_BUFFER_SIZE, DEFAULT_WRITE_BUFFER_SIZE,
};
pub use moving::{
    final_progress_after_rename, move_file, move_file_with_progress, move_finished_of, rename_progress_of, FileMoveFinished,
    FileMoveOptions, FileMoveWithProgressOptions,
};
pub use progress::{
    accepted_bytes, final_copy_progress, law_progress_is_reported_after_each_interval,
    law_writer_counts_what_its_writes_accepted,
    total_accepted, write_run, write_step, FileProgress,
    ProgressWriter,
};
pub use remove::{remove_file, FileRemoval, FileRemovalPhase};
pub use size::{file_size_in_bytes, FileSizeQuery, FileSizeQueryPhase};
pub use transfer::{
    removal_error_as_file_error, FileMoveMethod, FileTransfer, FileTransferPhase, TransferMode,
    TransferOutcome,
};

verus! {

/// Behaviour for an existing destination file that collides with the one
/// being copied or moved there.
#[derive(Clone, Copy, PartialEq, Eq, Debug, Structural)]
pub enum CollidingFileBehaviour {
    /// An existing destination file causes an error.
    Abort,
    /// An existing destination file is left alone and the file is silently skipped.
    Skip,
    /// An existing destination file is overwritten.
    Overwrite,
}

} // verus!
