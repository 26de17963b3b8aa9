//! Removing a single file.
use vstd::prelude::*;

use crate::error::FileRemoveError;
use crate::requests::{
    answers, existence_of, EntryType, FsRequest, FsResponse, MachineStep,
};

verus! {

/// Where a file removal stands.
#[derive(Debug)]
pub enum FileRemovalPhase {
    /// Waiting for the metadata of the path (links followed), to learn whether it exists.
    AwaitExistence,
    /// Waiting for the metadata of the path itself (links not followed).
    AwaitOwnMetadata,
    /// The path is a symbolic link; waiting for the metadata of what it points to.
    AwaitLinkTargetMetadata,
    /// Waiting for the file to be removed.
    AwaitRemoval,
    /// The removal has finished.
    Finished,
}

/// Removes a single file: a symbolic link to a file is removed itself, not its target.
///
/// Fails with `NotFound` when the path does not exist, with `NotAFile` when it is neither a
/// file nor a symbolic link to one, and with `UnableToAccessFile` when its metadata cannot be read.
#[derive(Debug)]
pub struct FileRemoval {
    /// The path to remove.
    pub file_path: String,
    /// Where the removal stands.
    pub phase: FileRemovalPhase,
}

impl FileRemoval {
    /// The request this removal waits for an answer to.
    pub open spec fn pending_request(self) -> FsRequest {
        match self.phase {
            FileRemovalPhase::AwaitExistence => FsRequest::Metadata { path: self.file_path },
            FileRemovalPhase::AwaitOwnMetadata => FsRequest::SymlinkMetadata { path: self.file_path },
            FileRemovalPhase::AwaitLinkTargetMetadata => FsRequest::Metadata { path: self.file_path },
            _ => FsRequest::RemoveFile { path: self.file_path },
        }
    }

    /// Whether the removal has finished.
    pub open spec fn is_finished(self) -> bool {
        self.phase is Finished
    }

    /// Whether `response` can resume this removal.
    pub open spec fn accepts(self, response: FsResponse) -> bool {
        !self.is_finished() && answers(self.pending_request(), response)
    }

    /// The next state and step of this removal, given the response to its pending request.
    pub open spec fn next(self, response: FsResponse) -> (FileRemoval, MachineStep<Result<(), FileRemoveError>>) {
        let path = self.file_path;
        let finish = |r: Result<(), FileRemoveError>| (FileRemoval { file_path: path, phase: FileRemovalPhase::Finished }, MachineStep::Finished(r));
        let go = |phase: FileRemovalPhase| {
            let s = FileRemoval { file_path: path, phase };
            (s, MachineStep::Perform(s.pending_request()))
        };
        match (self.phase, response) {
            (FileRemovalPhase::AwaitExistence, FsResponse::Metadata(m)) => match existence_of(m) {
                Err(e) => finish(Err(FileRemoveError::UnableToAccessFile { path, error: e })),
                Ok(false) => finish(Err(FileRemoveError::NotFound { path })),
                Ok(true) => go(FileRemovalPhase::AwaitOwnMetadata),
            },
            (FileRemovalPhase::AwaitOwnMetadata, FsResponse::Metadata(m)) => match m {
                Err(f) => finish(Err(FileRemoveError::UnableToAccessFile { path, error: f.error })),
                Ok(meta) => if meta.entry_type == EntryType::Symlink {
                    go(FileRemovalPhase::AwaitLinkTargetMetadata)
                } else if meta.entry_type != EntryType::File {
                    finish(Err(FileRemoveError::NotAFile { path }))
                } else {
                    go(FileRemovalPhase::AwaitRemoval)
                },
            },
            (FileRemovalPhase::AwaitLinkTargetMetadata, FsResponse::Metadata(m)) => match m {
                Err(f) => finish(Err(FileRemoveError::UnableToAccessFile { path, error: f.error })),
                Ok(meta) => if meta.entry_type != EntryType::File {
                    finish(Err(FileRemoveError::NotAFile { path }))
                } else {
                    go(FileRemovalPhase::AwaitRemoval)
                },
            },
            (FileRemovalPhase::AwaitRemoval, FsResponse::Done(r)) => match r {
                Err(f) => finish(Err(FileRemoveError::OtherIoError { error: f.error })),
                Ok(()) => finish(Ok(())),
            },
            _ => (self, MachineStep::Perform(self.pending_request())),
        }
    }

    /// Starts the removal of `file_path`.
    pub fn start(file_path: String) -> (r: (FileRemoval, FsRequest))
        ensures
            r.0.file_path == file_path,
            r.0.phase is AwaitExistence,
            r.1 == r.0.pending_request(),
    {
        let p = file_path.clone();
        (FileRemoval { file_path, phase: FileRemovalPhase::AwaitExistence }, FsRequest::Metadata {
            path: p,
        })
    }

    /// Whether `response` can resume this removal.
    pub fn can_accept(&self, response: &FsResponse) -> (r: bool)
        ensures
            r == self.accepts(*response),
    {
        match (&self.phase, response) {
            (FileRemovalPhase::AwaitExistence, FsResponse::Metadata(_)) => true,
            (FileRemovalPhase::AwaitOwnMetadata, FsResponse::Metadata(_)) => true,
            (FileRemovalPhase::AwaitLinkTargetMetadata, FsResponse::Metadata(_)) => true,
            (FileRemovalPhase::AwaitRemoval, FsResponse::Done(_)) => true,
            _ => false,
        }
    }

    /// Resumes the removal with the response to its pending request.
    pub fn resume(&mut self, response: FsResponse) -> (step: MachineStep<Result<(), FileRemoveError>>)
        requires
            old(self).accepts(response),
        ensures
            (*final(self), step) == old(self).next(response),
    {
        let path = self.file_path.clone();
        match response {
            FsResponse::Metadata(m) => {
                match self.phase {
                    FileRemovalPhase::AwaitExistence => {
                        match m {
                            Ok(_) => {
                                self.phase = FileRemovalPhase::AwaitOwnMetadata;
                                MachineStep::Perform(FsRequest::SymlinkMetadata { path })
                            },
                            Err(failure) => {
                                self.phase = FileRemovalPhase::Finished;
                                if failure.not_found {
                                    MachineStep::Finished(Err(FileRemoveError::NotFound { path }))
                                } else {
                                    MachineStep::Finished(
                                        Err(
                                            FileRemoveError::UnableToAccessFile {
                                                path,
                                                error: failure.error,
                                            },
                                        ),
                                    )
                                }
                            },
                        }
                    },
                    FileRemovalPhase::AwaitOwnMetadata => {
                        match m {
                            Err(failure) => {
                                self.phase = FileRemovalPhase::Finished;
                                MachineStep::Finished(
                                    Err(
                                        FileRemoveError::UnableToAccessFile {
                                            path,
                                            error: failure.error,
                                        },
                                    ),
                                )
                            },
                            Ok(meta) => {
                                if meta.entry_type == EntryType::Symlink {
                                    self.phase = FileRemovalPhase::AwaitLinkTargetMetadata;
                                    MachineStep::Perform(FsRequest::Metadata { path })
                                } else if meta.entry_type != EntryType::File {
                                    self.phase = FileRemovalPhase::Finished;
                                    MachineStep::Finished(Err(FileRemoveError::NotAFile { path }))
                                } else {
                                    self.phase = FileRemovalPhase::AwaitRemoval;
                                    MachineStep::Perform(FsRequest::RemoveFile { path })
                                }
                            },
                        }
                    },
                    _ => {
                        match m {
                            Err(failure) => {
                                self.phase = FileRemovalPhase::Finished;
                                MachineStep::Finished(
                                    Err(
                                        FileRemoveError::UnableToAccessFile {
                                            path,
                                            error: failure.error,
                                        },
                                    ),
                                )
                            },
                            Ok(meta) => {
                                if meta.entry_type != EntryType::File {
                                    self.phase = FileRemovalPhase::Finished;
                                    MachineStep::Finished(Err(FileRemoveError::NotAFile { path }))
                                } else {
                                    self.phase = FileRemovalPhase::AwaitRemoval;
                                    MachineStep::Perform(FsRequest::RemoveFile { path })
                                }
                            },
                        }
                    },
                }
            },
            FsResponse::Done(r) => {
                self.phase = FileRemovalPhase::Finished;
                match r {
                    Err(failure) => MachineStep::Finished(
                        Err(FileRemoveError::OtherIoError { error: failure.error }),
                    ),
                    Ok(()) => MachineStep::Finished(Ok(())),
                }
            },
            _ => MachineStep::Finished(Ok(())),
        }
    }
}

/// Starts removing the file at `file_path` (a symbolic link to a file is removed itself).
pub fn remove_file(file_path: String) -> (r: (FileRemoval, FsRequest))
    ensures
        r.0.file_path == file_path,
        r.0.phase is AwaitExistence,
        r.1 == r.0.pending_request(),
{
    FileRemoval::start(file_path)
}

} // verus!
