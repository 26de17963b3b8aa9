//! Options and results of file copies.
use vstd::prelude::*;

use super::transfer::{FileTransfer, FileTransferPhase, TransferMode, TransferOutcome};
use super::CollidingFileBehaviour;
use crate::requests::FsRequest;

verus! {

/// Options that influence a file copy.
#[derive(Clone, Copy, PartialEq, Eq, Debug, Structural)]
pub struct CopyFileOptions {
    /// How to behave for a destination file that already exists.
    pub colliding_file_behaviour: CollidingFileBehaviour,
}

impl Default for CopyFileOptions {
    /// Existing destination files cause an error.
    fn default() -> (r: Self)
        ensures
            r.colliding_file_behaviour == CollidingFileBehaviour::Abort,
    {
        Self { colliding_file_behaviour: CollidingFileBehaviour::Abort }
    }
}

/// Results of a successful file copy operation.
#[derive(Clone, Copy, PartialEq, Eq, Debug, Structural)]
pub enum CopyFileFinished {
    /// The destination file did not exist; it was created and written to.
    Created {
        /// Number of bytes written to the file.
        bytes_copied: u64,
    },
    /// The destination file already existed, and was overwritten.
    Overwritten {
        /// Number of bytes written to the file.
        bytes_copied: u64,
    },
    /// The destination file already existed, and the copy was skipped.
    Skipped,
}

/// The copy result that a transfer outcome stands for.
pub open spec fn copy_finished_of(outcome: TransferOutcome) -> CopyFileFinished {
    match outcome {
        TransferOutcome::Skipped => CopyFileFinished::Skipped,
        TransferOutcome::Transferred { bytes, destination_existed, .. } => if destination_existed {
            CopyFileFinished::Overwritten { bytes_copied: bytes }
        } else {
            CopyFileFinished::Created { bytes_copied: bytes }
        },
    }
}

impl CopyFileFinished {
    /// The copy result that a transfer outcome stands for.
    pub fn from_outcome(outcome: TransferOutcome) -> (r: Self)
        ensures
            r == copy_finished_of(outcome),
    {
        match outcome {
            TransferOutcome::Skipped => CopyFileFinished::Skipped,
            TransferOutcome::Transferred { bytes, destination_existed, .. } => {
                if destination_existed {
                    CopyFileFinished::Overwritten { bytes_copied: bytes }
                } else {
                    CopyFileFinished::Created { bytes_copied: bytes }
                }
            },
        }
    }
}

/// Default file read buffer size (64 KiB).
pub const DEFAULT_READ_BUFFER_SIZE: usize = 65536;

/// Default file write buffer size (64 KiB).
pub const DEFAULT_WRITE_BUFFER_SIZE: usize = 65536;

/// Default progress reporting interval (512 KiB).
pub const DEFAULT_PROGRESS_UPDATE_BYTE_INTERVAL: u64 = 524288;

/// Options that influence a file copy with progress reporting.
#[derive(Clone, Copy, PartialEq, Eq, Debug, Structural)]
pub struct CopyFileWithProgressOptions {
    /// How to behave for a destination file that already exists.
    pub colliding_file_behaviour: CollidingFileBehaviour,
    /// Internal buffer size used for reading the source file.
    pub read_buffer_size: usize,
    /// Internal buffer size used for writing to the destination file.
    pub write_buffer_size: usize,
    /// The smallest amount of bytes copied between two consecutive progress reports.
    pub progress_update_byte_interval: u64,
}

impl Default for CopyFileWithProgressOptions {
    /// Aborts on an existing destination file; 64 KiB buffers; a report at least every 64 KiB.
    fn default() -> (r: Self)
        ensures
            r.colliding_file_behaviour == CollidingFileBehaviour::Abort,
            r.read_buffer_size == 65536,
            r.write_buffer_size == 65536,
            r.progress_update_byte_interval == 65536,
    {
        Self {
            colliding_file_behaviour: CollidingFileBehaviour::Abort,
            read_buffer_size: 65536,
            write_buffer_size: 65536,
            progress_update_byte_interval: 65536,
        }
    }
}

/// Starts copying the file at `source_file_path` to `destination_file_path`.
///
/// The source must be a file, or a symbolic link to one (which is followed); an existing
/// destination file is handled as `options` say. Run the copy by performing its requests;
/// [`CopyFileFinished::from_outcome`] turns its outcome into the copy result.
pub fn copy_file(source_file_path: String, destination_file_path: String, options: CopyFileOptions) -> (r: (
    FileTransfer,
    FsRequest,
))
    ensures
        r.0 == (FileTransfer {
            source_path: source_file_path,
            destination_path: destination_file_path,
            colliding_file_behaviour: options.colliding_file_behaviour,
            mode: TransferMode::Copy,
            phase: FileTransferPhase::AwaitSourceExistence,
        }),
        r.1 == r.0.pending_request(),
{
    FileTransfer::start(source_file_path, destination_file_path, options.colliding_file_behaviour, TransferMode::Copy)
}

/// Starts copying the file at `source_file_path` to `destination_file_path`, reporting
/// progress while its contents are copied.
pub fn copy_file_with_progress(
    source_file_path: String,
    destination_file_path: String,
    options: CopyFileWithProgressOptions,
) -> (r: (FileTransfer, FsRequest))
    ensures
        r.0 == (FileTransfer {
            source_path: source_file_path,
            destination_path: destination_file_path,
            colliding_file_behaviour: options.colliding_file_behaviour,
            mode: TransferMode::CopyWithProgress {
                read_buffer_size: options.read_buffer_size,
                write_buffer_size: options.write_buffer_size,
                progress_update_byte_interval: options.progress_update_byte_interval,
            },
            phase: FileTransferPhase::AwaitSourceExistence,
        }),
        r.1 == r.0.pending_request(),
{
    FileTransfer::start(
        source_file_path,
        destination_file_path,
        options.colliding_file_behaviour,
        TransferMode::CopyWithProgress {
            read_buffer_size: options.read_buffer_size,
            write_buffer_size: options.write_buffer_size,
            progress_update_byte_interval: options.progress_update_byte_interval,
        },
    )
}

} // verus!
