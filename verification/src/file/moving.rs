//! Options and results of file moves.
use vstd::prelude::*;

use super::copy::{
    DEFAULT_PROGRESS_UPDATE_BYTE_INTERVAL, DEFAULT_READ_BUFFER_SIZE, DEFAULT_WRITE_BUFFER_SIZE,
};
use super::progress::FileProgress;
use super::transfer::{FileMoveMethod, FileTransfer, FileTransferPhase, TransferMode, TransferOutcome};
use super::CollidingFileBehaviour;
use crate::requests::FsRequest;

verus! {

/// Options that influence a file move.
#[derive(Clone, Copy, PartialEq, Eq, Debug, Structural)]
pub struct FileMoveOptions {
    /// How to behave for a destination file that already exists.
    pub colliding_file_behaviour: CollidingFileBehaviour,
}

impl Default for FileMoveOptions {
    /// Existing destination files cause an error.
    fn default() -> (r: Self)
        ensures
            r.colliding_file_behaviour == CollidingFileBehaviour::Abort,
    {
        Self { colliding_file_behaviour: CollidingFileBehaviour::Abort }
    }
}

/// Information about a successful file move.
#[derive(Clone, Copy, PartialEq, Eq, Debug, Structural)]
pub enum FileMoveFinished {
    /// The destination file was freshly created.
    Created {
        /// The number of bytes transferred (the file size).
        bytes_copied: u64,
        /// How the move was accomplished.
        method: FileMoveMethod,
    },
    /// The destination file existed, and was overwritten.
    Overwritten {
        /// The number of bytes transferred (the file size).
        bytes_copied: u64,
        /// How the move was accomplished.
        method: FileMoveMethod,
    },
    /// The destination file existed and the move was skipped; the source file still exists.
    Skipped,
}

/// The move result that a transfer outcome stands for.
pub open spec fn move_finished_of(outcome: TransferOutcome) -> FileMoveFinished {
    match outcome {
        TransferOutcome::Skipped => FileMoveFinished::Skipped,
        TransferOutcome::Transferred { bytes, destination_existed, method } => if destination_existed {
            FileMoveFinished::Overwritten { bytes_copied: bytes, method }
        } else {
            FileMoveFinished::Created { bytes_copied: bytes, method }
        },
    }
}

impl FileMoveFinished {
    /// The move result that a transfer outcome stands for.
    pub fn from_outcome(outcome: TransferOutcome) -> (r: Self)
        ensures
            r == move_finished_of(outcome),
    {
        match outcome {
            TransferOutcome::Skipped => FileMoveFinished::Skipped,
            TransferOutcome::Transferred { bytes, destination_existed, method } => {
                if destination_existed {
                    FileMoveFinished::Overwritten { bytes_copied: bytes, method }
                } else {
                    FileMoveFinished::Created { bytes_copied: bytes, method }
                }
            },
        }
    }
}

/// Options that influence a file move with progress reporting.
#[derive(Clone, Copy, PartialEq, Eq, Debug, Structural)]
pub struct FileMoveWithProgressOptions {
    /// How to behave for a destination file that already exists.
    pub colliding_file_behaviour: CollidingFileBehaviour,
    /// Internal buffer size used for reading the source file.
    pub read_buffer_size: usize,
    /// Internal buffer size used for writing to the destination file.
    pub write_buffer_size: usize,
    /// The smallest amount of bytes processed between two consecutive progress reports.
    pub progress_update_byte_interval: u64,
}

impl Default for FileMoveWithProgressOptions {
    /// Aborts on an existing destination file; 64 KiB buffers; a report at least every 512 KiB.
    fn default() -> (r: Self)
        ensures
            r.colliding_file_behaviour == CollidingFileBehaviour::Abort,
            r.read_buffer_size == DEFAULT_READ_BUFFER_SIZE,
            r.write_buffer_size == DEFAULT_WRITE_BUFFER_SIZE,
            r.progress_update_byte_interval == DEFAULT_PROGRESS_UPDATE_BYTE_INTERVAL,
    {
        Self {
            colliding_file_behaviour: CollidingFileBehaviour::Abort,
            read_buffer_size: DEFAULT_READ_BUFFER_SIZE,
            write_buffer_size: DEFAULT_WRITE_BUFFER_SIZE,
            progress_update_byte_interval: DEFAULT_PROGRESS_UPDATE_BYTE_INTERVAL,
        }
    }
}

/// The progress report that a move by rename emits once it has finished: the whole file is done.
pub open spec fn rename_progress_of(outcome: TransferOutcome) -> Option<FileProgress> {
    match outcome {
        TransferOutcome::Transferred { bytes, method: FileMoveMethod::Rename, .. } => Some(
            FileProgress { bytes_finished: bytes, bytes_total: bytes },
        ),
        _ => None,
    }
}

/// The progress report that a move with progress emits after a successful rename
/// (moves by copy report their progress while copying).
pub fn final_progress_after_rename(outcome: &TransferOutcome) -> (r: Option<FileProgress>)
    ensures
        r == rename_progress_of(*outcome),
{
    match outcome {
        TransferOutcome::Transferred { bytes, method: FileMoveMethod::Rename, .. } => Some(
            FileProgress { bytes_finished: *bytes, bytes_total: *bytes },
        ),
        _ => None,
    }
}

/// Starts moving the file at `source_file_path` to `destination_file_path`.
///
/// The file is renamed when possible, and copied then removed otherwise; a symbolic link
/// at the source is moved itself. Run the move by performing its requests.
pub fn move_file(source_file_path: String, destination_file_path: String, options: FileMoveOptions) -> (r: (
    FileTransfer,
    FsRequest,
))
    ensures
        r.0 == (FileTransfer {
            source_path: source_file_path,
            destination_path: destination_file_path,
            colliding_file_behaviour: options.colliding_file_behaviour,
            mode: TransferMode::Move,
            phase: FileTransferPhase::AwaitSourceExistence,
        }),
        r.1 == r.0.pending_request(),
{
    FileTransfer::start(source_file_path, destination_file_path, options.colliding_file_behaviour, TransferMode::Move)
}

/// Starts moving the file at `source_file_path` to `destination_file_path`, reporting
/// progress (see [`final_progress_after_rename`] for moves by rename).
pub fn move_file_with_progress(
    source_file_path: String,
    destination_file_path: String,
    options: FileMoveWithProgressOptions,
) -> (r: (FileTransfer, FsRequest))
    ensures
        r.0 == (FileTransfer {
            source_path: source_file_path,
            destination_path: destination_file_path,
            colliding_file_behaviour: options.colliding_file_behaviour,
            mode: TransferMode::MoveWithProgress {
                read_buffer_size: options.read_buffer_size,
                write_buffer_size: options.write_buffer_size,
                progress_update_byte_interval: options.progress_update_byte_interval,
            },
            phase: FileTransferPhase::AwaitSourceExistence,
        }),
        r.1 == r.0.pending_request(),
{
    FileTransfer::start(
        source_file_path,
        destination_file_path,
        options.colliding_file_behaviour,
        TransferMode::MoveWithProgress {
            read_buffer_size: options.read_buffer_size,
            write_buffer_size: options.write_buffer_size,
            progress_update_byte_interval: options.progress_update_byte_interval,
        },
    )
}

} // verus!
