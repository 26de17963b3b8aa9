//! Copying and moving a single file.
use vstd::prelude::*;

use super::remove::{FileRemoval, FileRemovalPhase};
use super::CollidingFileBehaviour;
use crate::error::{FileError, FileRemoveError};
use crate::path::{paths_are_equal, paths_equal};
use crate::requests::{
    answers, existence_of, reports_file, EntryType, FsRequest, FsResponse, MachineStep,
};

verus! {

/// A method used for moving a file.
#[derive(Clone, Copy, PartialEq, Eq, Debug, Structural)]
pub enum FileMoveMethod {
    /// The source file was renamed to the destination file.
    Rename,
    /// The source file was copied to the destination, and deleted afterwards.
    CopyAndDelete,
}

/// What kind of file transfer is performed.
#[derive(Clone, Copy, PartialEq, Eq, Debug, Structural)]
pub enum TransferMode {
    /// Copy the file.
    Copy,
    /// Copy the file, reporting progress.
    CopyWithProgress {
        /// Buffer size for reading the source file.
        read_buffer_size: usize,
        /// Buffer size for writing the destination file.
        write_buffer_size: usize,
        /// Minimum number of bytes between two progress reports.
        progress_update_byte_interval: u64,
    },
    /// Move the file: rename it, or copy it and remove the source.
    Move,
    /// Move the file, reporting progress.
    MoveWithProgress {
        /// Buffer size for reading the source file.
        read_buffer_size: usize,
        /// Buffer size for writing the destination file.
        write_buffer_size: usize,
        /// Minimum number of bytes between two progress reports.
        progress_update_byte_interval: u64,
    },
}

impl TransferMode {
    /// Whether the mode moves the file.
    pub open spec fn moves(self) -> bool {
        self is Move || self is MoveWithProgress
    }
}

/// How a successful file transfer went.
#[derive(Clone, Copy, PartialEq, Eq, Debug, Structural)]
pub enum TransferOutcome {
    /// The destination existed and the transfer was skipped.
    Skipped,
    /// The file was transferred.
    Transferred {
        /// Number of bytes written to (or renamed into) the destination.
        bytes: u64,
        /// Whether the destination file existed before (and was overwritten).
        destination_existed: bool,
        /// How the file got there (always `CopyAndDelete` for copies).
        method: FileMoveMethod,
    },
}

/// Where a file transfer stands.
#[derive(Debug)]
pub enum FileTransferPhase {
    /// Waiting for the source path's own metadata, to learn whether it exists.
    AwaitSourceExistence,
    /// Waiting for the metadata of what the source path leads to, to learn whether it is a file.
    AwaitSourceType { source_was_symlink: bool },
    /// Waiting for the canonical source path.
    AwaitSourceCanonical { source_was_symlink: bool },
    /// Waiting for the destination path's own metadata, to learn whether it exists.
    AwaitDestinationExistence { canonical_source: String, source_was_symlink: bool },
    /// Waiting for the canonical destination path.
    AwaitDestinationCanonical { canonical_source: String, source_was_symlink: bool },
    /// Waiting for the copy (or, when moving, the rename) to finish.
    AwaitTransfer {
        canonical_source: String,
        source_was_symlink: bool,
        destination: String,
        destination_existed: bool,
    },
    /// The file was renamed; waiting for its metadata, to learn its size.
    AwaitRenamedSize { destination_existed: bool },
    /// Renaming failed; waiting for the fallback copy to finish.
    AwaitFallbackCopy { canonical_source: String, source_to_remove: String, destination_existed: bool },
    /// The file was copied; removing the source.
    RemovingSource { removal: FileRemoval, bytes: u64, destination_existed: bool },
    /// The transfer has finished.
    Finished,
}

/// Copies or moves a single file from a source path to a destination file path.
///
/// The source must exist and be a file or a symbolic link to one; a symbolic link is
/// followed when copying, and renamed itself when moving. The destination must be a file path.
#[derive(Debug)]
pub struct FileTransfer {
    /// The path of the file to copy or move.
    pub source_path: String,
    /// The path to copy or move the file to.
    pub destination_path: String,
    /// How to behave for an existing destination file.
    pub colliding_file_behaviour: CollidingFileBehaviour,
    /// The kind of transfer.
    pub mode: TransferMode,
    /// Where the transfer stands.
    pub phase: FileTransferPhase,
}

/// The error that a failed source file removal becomes when moving a file.
pub open spec fn removal_error_as_file_error(error: FileRemoveError) -> FileError {
    match error {
        FileRemoveError::NotFound { path } => FileError::SourceFileNotFound { path },
        FileRemoveError::NotAFile { path } => FileError::SourcePathNotAFile { path },
        FileRemoveError::UnableToAccessFile { path, error } => FileError::UnableToAccessSourceFile {
            path,
            error,
        },
        FileRemoveError::OtherIoError { error } => FileError::OtherIoError { error },
    }
}

/// Maps a failed source file removal to the error of the file move.
fn map_removal_error(error: FileRemoveError) -> (r: FileError)
    ensures
        r == removal_error_as_file_error(error),
{
    match error {
        FileRemoveError::NotFound { path } => FileError::SourceFileNotFound { path },
        FileRemoveError::NotAFile { path } => FileError::SourcePathNotAFile { path },
        FileRemoveError::UnableToAccessFile { path, error } => FileError::UnableToAccessSourceFile {
            path,
            error,
        },
        FileRemoveError::OtherIoError { error } => FileError::OtherIoError { error },
    }
}

/// The result of a transfer that wrote `bytes` bytes.
pub open spec fn transferred(bytes: u64, destination_existed: bool, method: FileMoveMethod) -> Result<
    TransferOutcome,
    FileError,
> {
    Ok(TransferOutcome::Transferred { bytes, destination_existed, method })
}

impl FileTransfer {
    /// The path that a move renames (or removes after copying): the path as given when it is
    /// a symbolic link, the canonical path otherwise.
    pub open spec fn path_to_move(self, canonical_source: String, source_was_symlink: bool) -> String {
        if source_was_symlink {
            self.source_path
        } else {
            canonical_source
        }
    }

    /// The request that copies `canonical_source` to `destination` in this transfer's mode.
    pub open spec fn copy_request(self, canonical_source: String, destination: String) -> FsRequest {
        match self.mode {
            TransferMode::CopyWithProgress {
                read_buffer_size,
                write_buffer_size,
                progress_update_byte_interval,
            } => FsRequest::CopyFileWithProgress {
                source_path: canonical_source,
                destination_path: destination,
                read_buffer_size,
                write_buffer_size,
                progress_update_byte_interval,
            },
            TransferMode::MoveWithProgress {
                read_buffer_size,
                write_buffer_size,
                progress_update_byte_interval,
            } => FsRequest::CopyFileWithProgress {
                source_path: canonical_source,
                destination_path: destination,
                read_buffer_size,
                write_buffer_size,
                progress_update_byte_interval,
            },
            _ => FsRequest::CopyFile { source_path: canonical_source, destination_path: destination },
        }
    }

    /// The request that transfers the validated source to the validated destination.
    pub open spec fn transfer_request(
        self,
        canonical_source: String,
        source_was_symlink: bool,
        destination: String,
    ) -> FsRequest {
        if self.mode.moves() {
            FsRequest::Rename {
                from: self.path_to_move(canonical_source, source_was_symlink),
                to: destination,
            }
        } else {
            self.copy_request(canonical_source, destination)
        }
    }

    /// The request this transfer waits for an answer to.
    pub open spec fn pending_request(self) -> FsRequest {
        match self.phase {
            FileTransferPhase::AwaitSourceExistence => FsRequest::SymlinkMetadata {
                path: self.source_path,
            },
            FileTransferPhase::AwaitSourceType { .. } => FsRequest::Metadata { path: self.source_path },
            FileTransferPhase::AwaitSourceCanonical { .. } => FsRequest::Canonicalize {
                path: self.source_path,
            },
            FileTransferPhase::AwaitDestinationExistence { .. } => FsRequest::SymlinkMetadata {
                path: self.destination_path,
            },
            FileTransferPhase::AwaitDestinationCanonical { .. } => FsRequest::Canonicalize {
                path: self.destination_path,
            },
            FileTransferPhase::AwaitTransfer {
                canonical_source,
                source_was_symlink,
                destination,
                ..
            } => self.transfer_request(canonical_source, source_was_symlink, destination),
            FileTransferPhase::AwaitRenamedSize { .. } => FsRequest::Metadata {
                path: self.destination_path,
            },
            FileTransferPhase::AwaitFallbackCopy { canonical_source, .. } => self.copy_request(
                canonical_source,
                self.destination_path,
            ),
            FileTransferPhase::RemovingSource { removal, .. } => removal.pending_request(),
            FileTransferPhase::Finished => FsRequest::Metadata { path: self.source_path },
        }
    }

    /// Whether the transfer has finished.
    pub open spec fn is_finished(self) -> bool {
        self.phase is Finished
    }

    /// Whether `response` can resume this transfer.
    pub open spec fn accepts(self, response: FsResponse) -> bool {
        &&& !self.is_finished()
        &&& match self.phase {
            FileTransferPhase::AwaitTransfer { .. } => if self.mode.moves() {
                response is Done
            } else {
                response is Bytes
            },
            FileTransferPhase::AwaitFallbackCopy { .. } => response is Bytes,
            FileTransferPhase::RemovingSource { removal, .. } => removal.accepts(response),
            _ => answers(self.pending_request(), response),
        }
    }

    /// This transfer in another phase.
    pub open spec fn in_phase(self, phase: FileTransferPhase) -> FileTransfer {
        FileTransfer { phase, ..self }
    }

    /// This transfer in phase `phase`, asking for that phase's request.
    pub open spec fn go(self, phase: FileTransferPhase) -> (FileTransfer, MachineStep<
        Result<TransferOutcome, FileError>,
    >) {
        (self.in_phase(phase), MachineStep::Perform(self.in_phase(phase).pending_request()))
    }

    /// This transfer finished with `result`.
    pub open spec fn finish(self, result: Result<TransferOutcome, FileError>) -> (FileTransfer, MachineStep<
        Result<TransferOutcome, FileError>,
    >) {
        (self.in_phase(FileTransferPhase::Finished), MachineStep::Finished(result))
    }

    /// The next state and step of this transfer, given the response to its pending request.
    pub open spec fn next(self, response: FsResponse) -> (FileTransfer, MachineStep<
        Result<TransferOutcome, FileError>,
    >) {
        let source = self.source_path;
        let destination = self.destination_path;
        match (self.phase, response) {
            (FileTransferPhase::AwaitSourceExistence, FsResponse::Metadata(m)) => match existence_of(
                m,
            ) {
                Err(e) => self.finish(
                    Err(FileError::UnableToAccessSourceFile { path: source, error: e }),
                ),
                Ok(false) => self.finish(Err(FileError::SourceFileNotFound { path: source })),
                Ok(true) => self.go(
                    FileTransferPhase::AwaitSourceType {
                        source_was_symlink: m->Ok_0.entry_type == EntryType::Symlink,
                    },
                ),
            },
            (FileTransferPhase::AwaitSourceType { source_was_symlink }, FsResponse::Metadata(m)) => {
                if reports_file(m) {
                    self.go(FileTransferPhase::AwaitSourceCanonical { source_was_symlink })
                } else {
                    self.finish(Err(FileError::SourcePathNotAFile { path: source }))
                }
            },
            (FileTransferPhase::AwaitSourceCanonical { source_was_symlink }, FsResponse::Path(p)) => {
                match p {
                    Err(f) => self.finish(
                        Err(FileError::UnableToAccessSourceFile { path: source, error: f.error }),
                    ),
                    Ok(canonical_source) => self.go(
                        FileTransferPhase::AwaitDestinationExistence {
                            canonical_source,
                            source_was_symlink,
                        },
                    ),
                }
            },
            (
                FileTransferPhase::AwaitDestinationExistence { canonical_source, source_was_symlink },
                FsResponse::Metadata(m),
            ) => match existence_of(m) {
                Err(e) => self.finish(
                    Err(FileError::UnableToAccessDestinationFile { path: destination, error: e }),
                ),
                Ok(false) => self.go(
                    FileTransferPhase::AwaitTransfer {
                        canonical_source,
                        source_was_symlink,
                        destination,
                        destination_existed: false,
                    },
                ),
                Ok(true) => self.go(
                    FileTransferPhase::AwaitDestinationCanonical {
                        canonical_source,
                        source_was_symlink,
                    },
                ),
            },
            (
                FileTransferPhase::AwaitDestinationCanonical { canonical_source, source_was_symlink },
                FsResponse::Path(p),
            ) => match p {
                Err(f) => self.finish(
                    Err(
                        FileError::UnableToAccessDestinationFile {
                            path: destination,
                            error: f.error,
                        },
                    ),
                ),
                Ok(canonical_destination) => if paths_equal(
                    canonical_source@,
                    canonical_destination@,
                ) {
                    self.finish(
                        Err(FileError::SourceAndDestinationAreTheSame { path: canonical_destination }),
                    )
                } else {
                    match self.colliding_file_behaviour {
                        CollidingFileBehaviour::Abort => self.finish(
                            Err(FileError::DestinationPathAlreadyExists { path: destination }),
                        ),
                        CollidingFileBehaviour::Skip => self.finish(Ok(TransferOutcome::Skipped)),
                        CollidingFileBehaviour::Overwrite => self.go(
                            FileTransferPhase::AwaitTransfer {
                                canonical_source,
                                source_was_symlink,
                                destination: canonical_destination,
                                destination_existed: true,
                            },
                        ),
                    }
                },
            },
            (
                FileTransferPhase::AwaitTransfer {
                    canonical_source,
                    source_was_symlink,
                    destination: validated_destination,
                    destination_existed,
                },
                FsResponse::Bytes(b),
            ) => match b {
                Err(f) => self.finish(Err(FileError::OtherIoError { error: f.error })),
                Ok(bytes) => self.finish(
                    transferred(bytes, destination_existed, FileMoveMethod::CopyAndDelete),
                ),
            },
            (
                FileTransferPhase::AwaitTransfer {
                    canonical_source,
                    source_was_symlink,
                    destination: validated_destination,
                    destination_existed,
                },
                FsResponse::Done(r),
            ) => match r {
                Ok(()) => (
                    FileTransfer {
                        destination_path: validated_destination,
                        phase: FileTransferPhase::AwaitRenamedSize { destination_existed },
                        ..self
                    },
                    MachineStep::Perform(FsRequest::Metadata { path: validated_destination }),
                ),
                Err(_) => (
                    FileTransfer {
                        destination_path: validated_destination,
                        phase: FileTransferPhase::AwaitFallbackCopy {
                            canonical_source,
                            source_to_remove: self.path_to_move(
                                canonical_source,
                                source_was_symlink,
                            ),
                            destination_existed,
                        },
                        ..self
                    },
                    MachineStep::Perform(
                        self.copy_request(canonical_source, validated_destination),
                    ),
                ),
            },
            (FileTransferPhase::AwaitRenamedSize { destination_existed }, FsResponse::Metadata(m)) => {
                match m {
                    Err(f) => self.finish(Err(FileError::OtherIoError { error: f.error })),
                    Ok(meta) => self.finish(
                        transferred(meta.len, destination_existed, FileMoveMethod::Rename),
                    ),
                }
            },
            (
                FileTransferPhase::AwaitFallbackCopy { source_to_remove, destination_existed, .. },
                FsResponse::Bytes(b),
            ) => match b {
                Err(f) => self.finish(Err(FileError::OtherIoError { error: f.error })),
                Ok(bytes) => {
                    let removal = FileRemoval {
                        file_path: source_to_remove,
                        phase: FileRemovalPhase::AwaitExistence,
                    };
                    (
                        self.in_phase(
                            FileTransferPhase::RemovingSource {
                                removal,
                                bytes,
                                destination_existed,
                            },
                        ),
                        MachineStep::Perform(removal.pending_request()),
                    )
                },
            },
            (
                FileTransferPhase::RemovingSource { removal, bytes, destination_existed },
                response,
            ) => {
                let (removal_after, removal_step) = removal.next(response);
                match removal_step {
                    MachineStep::Perform(request) => (
                        self.in_phase(
                            FileTransferPhase::RemovingSource {
                                removal: removal_after,
                                bytes,
                                destination_existed,
                            },
                        ),
                        MachineStep::Perform(request),
                    ),
                    MachineStep::Finished(r) => match r {
                        Err(e) => self.finish(Err(removal_error_as_file_error(e))),
                        Ok(()) => self.finish(
                            transferred(bytes, destination_existed, FileMoveMethod::CopyAndDelete),
                        ),
                    },
                }
            },
            _ => (self, MachineStep::Perform(self.pending_request())),
        }
    }

    /// Starts a transfer of `source_path` to `destination_path`.
    pub fn start(
        source_path: String,
        destination_path: String,
        colliding_file_behaviour: CollidingFileBehaviour,
        mode: TransferMode,
    ) -> (r: (FileTransfer, FsRequest))
        ensures
            r.0 == (FileTransfer {
                source_path,
                destination_path,
                colliding_file_behaviour,
                mode,
                phase: FileTransferPhase::AwaitSourceExistence,
            }),
            r.1 == r.0.pending_request(),
    {
        let request = FsRequest::SymlinkMetadata { path: source_path.clone() };
        (
            FileTransfer {
                source_path,
                destination_path,
                colliding_file_behaviour,
                mode,
                phase: FileTransferPhase::AwaitSourceExistence,
            },
            request,
        )
    }

    /// Whether `response` can resume this transfer.
    pub fn can_accept(&self, response: &FsResponse) -> (r: bool)
        ensures
            r == self.accepts(*response),
    {
        let moves = match self.mode {
            TransferMode::Move | TransferMode::MoveWithProgress { .. } => true,
            _ => false,
        };
        match (&self.phase, response) {
            (FileTransferPhase::AwaitSourceExistence, FsResponse::Metadata(_)) => true,
            (FileTransferPhase::AwaitSourceType { .. }, FsResponse::Metadata(_)) => true,
            (FileTransferPhase::AwaitSourceCanonical { .. }, FsResponse::Path(_)) => true,
            (FileTransferPhase::AwaitDestinationExistence { .. }, FsResponse::Metadata(_)) => true,
            (FileTransferPhase::AwaitDestinationCanonical { .. }, FsResponse::Path(_)) => true,
            (FileTransferPhase::AwaitTransfer { .. }, FsResponse::Done(_)) => moves,
            (FileTransferPhase::AwaitTransfer { .. }, FsResponse::Bytes(_)) => !moves,
            (FileTransferPhase::AwaitRenamedSize { .. }, FsResponse::Metadata(_)) => true,
            (FileTransferPhase::AwaitFallbackCopy { .. }, FsResponse::Bytes(_)) => true,
            (FileTransferPhase::RemovingSource { removal, .. }, _) => removal.can_accept(response),
            _ => false,
        }
    }

    /// The request that copies `canonical_source` to `destination` in this transfer's mode.
    fn make_copy_request(&self, canonical_source: String, destination: String) -> (r: FsRequest)
        ensures
            r == self.copy_request(canonical_source, destination),
    {
        match self.mode {
            TransferMode::CopyWithProgress {
                read_buffer_size,
                write_buffer_size,
                progress_update_byte_interval,
            } => FsRequest::CopyFileWithProgress {
                source_path: canonical_source,
                destination_path: destination,
                read_buffer_size,
                write_buffer_size,
                progress_update_byte_interval,
            },
            TransferMode::MoveWithProgress {
                read_buffer_size,
                write_buffer_size,
                progress_update_byte_interval,
            } => FsRequest::CopyFileWithProgress {
                source_path: canonical_source,
                destination_path: destination,
                read_buffer_size,
                write_buffer_size,
                progress_update_byte_interval,
            },
            _ => FsRequest::CopyFile { source_path: canonical_source, destination_path: destination },
        }
    }

    /// Resumes the transfer with the response to its pending request.
    pub fn resume(&mut self, response: FsResponse) -> (step: MachineStep<
        Result<TransferOutcome, FileError>,
    >)
        requires
            old(self).accepts(response),
        ensures
            (*final(self), step) == old(self).next(response),
    {
        let mut phase = FileTransferPhase::Finished;
        std::mem::swap(&mut phase, &mut self.phase);
        let source = self.source_path.clone();
        let destination = self.destination_path.clone();
        match (phase, response) {
            (FileTransferPhase::AwaitSourceExistence, FsResponse::Metadata(m)) => match m {
                Ok(meta) => {
                    self.phase = FileTransferPhase::AwaitSourceType {
                        source_was_symlink: meta.entry_type == EntryType::Symlink,
                    };
                    MachineStep::Perform(FsRequest::Metadata { path: source })
                },
                Err(failure) => if failure.not_found {
                    MachineStep::Finished(Err(FileError::SourceFileNotFound { path: source }))
                } else {
                    MachineStep::Finished(
                        Err(FileError::UnableToAccessSourceFile { path: source, error: failure.error }),
                    )
                },
            },
            (FileTransferPhase::AwaitSourceType { source_was_symlink }, FsResponse::Metadata(m)) => {
                let is_file = match m {
                    Ok(meta) => meta.entry_type == EntryType::File,
                    Err(_) => false,
                };
                if is_file {
                    self.phase = FileTransferPhase::AwaitSourceCanonical { source_was_symlink };
                    MachineStep::Perform(FsRequest::Canonicalize { path: source })
                } else {
                    MachineStep::Finished(Err(FileError::SourcePathNotAFile { path: source }))
                }
            },
            (FileTransferPhase::AwaitSourceCanonical { source_was_symlink }, FsResponse::Path(p)) => {
                match p {
                    Err(f) => MachineStep::Finished(
                        Err(FileError::UnableToAccessSourceFile { path: source, error: f.error }),
                    ),
                    Ok(canonical_source) => {
                        self.phase = FileTransferPhase::AwaitDestinationExistence {
                            canonical_source,
                            source_was_symlink,
                        };
                        MachineStep::Perform(FsRequest::SymlinkMetadata { path: destination })
                    },
                }
            },
            (
                FileTransferPhase::AwaitDestinationExistence { canonical_source, source_was_symlink },
                FsResponse::Metadata(m),
            ) => match m {
                Ok(_) => {
                    self.phase = FileTransferPhase::AwaitDestinationCanonical {
                        canonical_source,
                        source_was_symlink,
                    };
                    MachineStep::Perform(FsRequest::Canonicalize { path: destination })
                },
                Err(failure) => if failure.not_found {
                    let request = if self.is_move() {
                        let from = if source_was_symlink {
                            source
                        } else {
                            canonical_source.clone()
                        };
                        FsRequest::Rename { from, to: destination.clone() }
                    } else {
                        self.make_copy_request(canonical_source.clone(), destination.clone())
                    };
                    self.phase = FileTransferPhase::AwaitTransfer {
                        canonical_source,
                        source_was_symlink,
                        destination,
                        destination_existed: false,
                    };
                    MachineStep::Perform(request)
                } else {
                    MachineStep::Finished(
                        Err(
                            FileError::UnableToAccessDestinationFile {
                                path: destination,
                                error: failure.error,
                            },
                        ),
                    )
                },
            },
            (
                FileTransferPhase::AwaitDestinationCanonical { canonical_source, source_was_symlink },
                FsResponse::Path(p),
            ) => match p {
                Err(f) => MachineStep::Finished(
                    Err(FileError::UnableToAccessDestinationFile { path: destination, error: f.error }),
                ),
                Ok(canonical_destination) => {
                    if paths_are_equal(canonical_source.as_str(), canonical_destination.as_str()) {
                        MachineStep::Finished(
                            Err(FileError::SourceAndDestinationAreTheSame { path: canonical_destination }),
                        )
                    } else {
                        match self.colliding_file_behaviour {
                            CollidingFileBehaviour::Abort => MachineStep::Finished(
                                Err(FileError::DestinationPathAlreadyExists { path: destination }),
                            ),
                            CollidingFileBehaviour::Skip => MachineStep::Finished(
                                Ok(TransferOutcome::Skipped),
                            ),
                            CollidingFileBehaviour::Overwrite => {
                                let request = if self.is_move() {
                                    let from = if source_was_symlink {
                                        source
                                    } else {
                                        canonical_source.clone()
                                    };
                                    FsRequest::Rename { from, to: canonical_destination.clone() }
                                } else {
                                    self.make_copy_request(
                                        canonical_source.clone(),
                                        canonical_destination.clone(),
                                    )
                                };
                                self.phase = FileTransferPhase::AwaitTransfer {
                                    canonical_source,
                                    source_was_symlink,
                                    destination: canonical_destination,
                                    destination_existed: true,
                                };
                                MachineStep::Perform(request)
                            },
                        }
                    }
                },
            },
            (
                FileTransferPhase::AwaitTransfer { destination_existed, .. },
                FsResponse::Bytes(b),
            ) => match b {
                Err(f) => MachineStep::Finished(Err(FileError::OtherIoError { error: f.error })),
                Ok(bytes) => MachineStep::Finished(
                    Ok(
                        TransferOutcome::Transferred {
                            bytes,
                            destination_existed,
                            method: FileMoveMethod::CopyAndDelete,
                        },
                    ),
                ),
            },
            (
                FileTransferPhase::AwaitTransfer {
                    canonical_source,
                    source_was_symlink,
                    destination: validated_destination,
                    destination_existed,
                },
                FsResponse::Done(r),
            ) => match r {
                Ok(()) => {
                    self.destination_path = validated_destination.clone();
                    self.phase = FileTransferPhase::AwaitRenamedSize { destination_existed };
                    MachineStep::Perform(FsRequest::Metadata { path: validated_destination })
                },
                Err(_) => {
                    let source_to_remove = if source_was_symlink {
                        source
                    } else {
                        canonical_source.clone()
                    };
                    let request = self.make_copy_request(
                        canonical_source.clone(),
                        validated_destination.clone(),
                    );
                    self.destination_path = validated_destination;
                    self.phase = FileTransferPhase::AwaitFallbackCopy {
                        canonical_source,
                        source_to_remove,
                        destination_existed,
                    };
                    MachineStep::Perform(request)
                },
            },
            (FileTransferPhase::AwaitRenamedSize { destination_existed }, FsResponse::Metadata(m)) => {
                match m {
                    Err(f) => MachineStep::Finished(Err(FileError::OtherIoError { error: f.error })),
                    Ok(meta) => MachineStep::Finished(
                        Ok(
                            TransferOutcome::Transferred {
                                bytes: meta.len,
                                destination_existed,
                                method: FileMoveMethod::Rename,
                            },
                        ),
                    ),
                }
            },
            (
                FileTransferPhase::AwaitFallbackCopy { source_to_remove, destination_existed, .. },
                FsResponse::Bytes(b),
            ) => match b {
                Err(f) => MachineStep::Finished(Err(FileError::OtherIoError { error: f.error })),
                Ok(bytes) => {
                    let (removal, request) = FileRemoval::start(source_to_remove);
                    self.phase = FileTransferPhase::RemovingSource {
                        removal,
                        bytes,
                        destination_existed,
                    };
                    MachineStep::Perform(request)
                },
            },
            (
                FileTransferPhase::RemovingSource { mut removal, bytes, destination_existed },
                response,
            ) => {
                let removal_step = removal.resume(response);
                match removal_step {
                    MachineStep::Perform(request) => {
                        self.phase = FileTransferPhase::RemovingSource {
                            removal,
                            bytes,
                            destination_existed,
                        };
                        MachineStep::Perform(request)
                    },
                    MachineStep::Finished(r) => match r {
                        Err(e) => MachineStep::Finished(Err(map_removal_error(e))),
                        Ok(()) => MachineStep::Finished(
                            Ok(
                                TransferOutcome::Transferred {
                                    bytes,
                                    destination_existed,
                                    method: FileMoveMethod::CopyAndDelete,
                                },
                            ),
                        ),
                    },
                }
            },
            (phase, _) => {
                self.phase = phase;
                MachineStep::Finished(Ok(TransferOutcome::Skipped))
            },
        }
    }

    /// Whether this transfer moves the file.
    fn is_move(&self) -> (r: bool)
        ensures
            r == self.mode.moves(),
    {
        match self.mode {
            TransferMode::Move | TransferMode::MoveWithProgress { .. } => true,
            _ => false,
        }
    }
}

} // verus!
