//! Querying the size of a file.
use vstd::prelude::*;

use crate::error::FileSizeError;
use crate::requests::{answers, existence_of, EntryType, FsRequest, FsResponse, MachineStep};

verus! {

/// Where a file size query stands.
#[derive(Debug)]
pub enum FileSizeQueryPhase {
    /// Waiting for the path's own metadata (a symbolic link is not followed).
    AwaitMetadata,
    /// The query has finished.
    Finished,
}

/// Retrieves the size of a file in bytes. Symbolic links are not followed: the size of a
/// link is the link's own size, as `du` counts it.
#[derive(Debug)]
pub struct FileSizeQuery {
    /// The path of the file.
    pub file_path: String,
    /// Where the query stands.
    pub phase: FileSizeQueryPhase,
}

impl FileSizeQuery {
    /// The request this query waits for an answer to.
    pub open spec fn pending_request(self) -> FsRequest {
        FsRequest::SymlinkMetadata { path: self.file_path }
    }

    /// Whether `response` can resume this query.
    pub open spec fn accepts(self, response: FsResponse) -> bool {
        !(self.phase is Finished) && answers(self.pending_request(), response)
    }

    /// The next state and step of this query, given the response to its pending request:
    /// the size of a file or of a symbolic link (not followed); an error for anything else.
    pub open spec fn next(self, response: FsResponse) -> (FileSizeQuery, MachineStep<Result<u64, FileSizeError>>) {
        let path = self.file_path;
        let done = FileSizeQuery { file_path: path, phase: FileSizeQueryPhase::Finished };
        match (self.phase, response) {
            (FileSizeQueryPhase::AwaitMetadata, FsResponse::Metadata(m)) => match existence_of(m) {
                Err(e) => (done, MachineStep::Finished(Err(FileSizeError::UnableToAccessFile { file_path: path, error: e }))),
                Ok(false) => (done, MachineStep::Finished(Err(FileSizeError::NotFound { path }))),
                Ok(true) => {
                    let meta = m->Ok_0;
                    if meta.entry_type == EntryType::File || meta.entry_type == EntryType::Symlink {
                        (done, MachineStep::Finished(Ok(meta.len)))
                    } else {
                        (done, MachineStep::Finished(Err(FileSizeError::NotAFile { path })))
                    }
                },
            },
            _ => (self, MachineStep::Perform(self.pending_request())),
        }
    }

    /// Starts querying the size of `file_path`.
    pub fn start(file_path: String) -> (r: (FileSizeQuery, FsRequest))
        ensures
            r.0 == (FileSizeQuery { file_path, phase: FileSizeQueryPhase::AwaitMetadata }),
            r.1 == r.0.pending_request(),
    {
        let request = FsRequest::SymlinkMetadata { path: file_path.clone() };
        (FileSizeQuery { file_path, phase: FileSizeQueryPhase::AwaitMetadata }, request)
    }

    /// Whether `response` can resume this query.
    pub fn can_accept(&self, response: &FsResponse) -> (r: bool)
        ensures
            r == self.accepts(*response),
    {
        match (&self.phase, response) {
            (FileSizeQueryPhase::Finished, _) => false,
            (_, FsResponse::Metadata(_)) => true,
            _ => false,
        }
    }

    /// Resumes the query with the response to its pending request.
    pub fn resume(&mut self, response: FsResponse) -> (step: MachineStep<Result<u64, FileSizeError>>)
        requires
            old(self).accepts(response),
        ensures
            (*final(self), step) == old(self).next(response),
    {
        let path = self.file_path.clone();
        self.phase = FileSizeQueryPhase::Finished;
        match response {
            FsResponse::Metadata(m) => match m {
                Ok(meta) => if meta.entry_type == EntryType::File || meta.entry_type == EntryType::Symlink {
                    MachineStep::Finished(Ok(meta.len))
                } else {
                    MachineStep::Finished(Err(FileSizeError::NotAFile { path }))
                },
                Err(failure) => if failure.not_found {
                    MachineStep::Finished(Err(FileSizeError::NotFound { path }))
                } else {
                    MachineStep::Finished(
                        Err(FileSizeError::UnableToAccessFile { file_path: path, error: failure.error }),
                    )
                },
            },
            _ => MachineStep::Finished(Ok(0)),
        }
    }
}

/// Starts querying the size of the file at `file_path`, in bytes (symbolic links are not
/// followed: a link's size is its own).
pub fn file_size_in_bytes(file_path: String) -> (r: (FileSizeQuery, FsRequest))
    ensures
        r.0 == (FileSizeQuery { file_path, phase: FileSizeQueryPhase::AwaitMetadata }),
        r.1 == r.0.pending_request(),
{
    FileSizeQuery::start(file_path)
}

} // verus!
