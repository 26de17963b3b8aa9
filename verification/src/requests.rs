//! The filesystem work that the library's operations ask for, and what comes back.
//!
//! Every operation of this library is a state machine: it hands out one
//! [`FsRequest`] at a time, and is resumed with the [`FsResponse`] that performing
//! the request produced. The caller performs requests against a real filesystem.
use vstd::prelude::*;

verus! {

#[verifier::external_type_specification]
#[verifier::external_body]
pub struct ExIoError(std::io::Error);

/// The type of a filesystem entry, as its metadata reports it.
#[derive(Clone, Copy, PartialEq, Eq, Debug, Structural)]
pub enum EntryType {
    /// A regular file.
    File,
    /// A directory.
    Directory,
    /// A symbolic link (only reported when links are not followed).
    Symlink,
    /// Anything else (sockets, devices, ...).
    Other,
}

/// The metadata of a filesystem entry that the library reads.
#[derive(Clone, Copy, PartialEq, Eq, Debug, Structural)]
pub struct EntryMetadata {
    /// Type of the entry.
    pub entry_type: EntryType,
    /// Size of the entry in bytes.
    pub len: u64,
}

/// A failed filesystem request.
#[derive(Debug)]
pub struct IoFailure {
    /// Whether the failure reports that the path does not exist.
    pub not_found: bool,
    /// The underlying IO error.
    pub error: std::io::Error,
}

/// One entry of a directory listing.
#[derive(Debug)]
pub struct DirectoryEntryInfo {
    /// Path of the entry (the directory path joined with the entry's name).
    pub path: String,
    /// Name of the entry inside its directory.
    pub file_name: String,
    /// Type of the entry, without following symbolic links.
    pub file_type: Result<EntryType, IoFailure>,
    /// Metadata of the entry, without following symbolic links.
    pub metadata: Result<EntryMetadata, IoFailure>,
}

/// A request for filesystem work.
#[derive(Debug)]
pub enum FsRequest {
    /// Read the metadata of a path without following a symbolic link at it.
    SymlinkMetadata { path: String },
    /// Read the metadata of a path, following symbolic links.
    Metadata { path: String },
    /// Resolve a path to its canonical, absolute form.
    Canonicalize { path: String },
    /// Read the destination of a symbolic link.
    ReadLink { path: String },
    /// List a directory's entries, in the order the filesystem yields them.
    ReadDirectory { path: String },
    /// Read the first entry of a directory, if it has any.
    ReadFirstDirectoryEntry { path: String },
    /// Copy a file's contents (and permissions) to another path.
    CopyFile { source_path: String, destination_path: String },
    /// Copy a file's contents to another path, reporting progress on the way.
    CopyFileWithProgress {
        source_path: String,
        destination_path: String,
        read_buffer_size: usize,
        write_buffer_size: usize,
        progress_update_byte_interval: u64,
    },
    /// Rename a path.
    Rename { from: String, to: String },
    /// Remove a file (or a symbolic link).
    RemoveFile { path: String },
    /// Remove a directory and everything in it.
    RemoveDirectoryAll { path: String },
    /// Create a directory (its parent must exist).
    CreateDirectory { path: String },
    /// Create a directory and all its missing parents.
    CreateDirectoryAll { path: String },
    /// Create a symbolic link at `link_path` that points to `target_path`.
    CreateSymlink { link_path: String, target_path: String },
}

/// The outcome of a performed [`FsRequest`].
#[derive(Debug)]
pub enum FsResponse {
    /// Answers [`FsRequest::SymlinkMetadata`] and [`FsRequest::Metadata`].
    Metadata(Result<EntryMetadata, IoFailure>),
    /// Answers [`FsRequest::Canonicalize`] and [`FsRequest::ReadLink`].
    Path(Result<String, IoFailure>),
    /// Answers [`FsRequest::ReadDirectory`]: the entries up to and including
    /// the first entry that could not be read.
    Listing(Result<Vec<Result<DirectoryEntryInfo, IoFailure>>, IoFailure>),
    /// Answers [`FsRequest::ReadFirstDirectoryEntry`].
    FirstEntry(Result<Option<Result<(), IoFailure>>, IoFailure>),
    /// Answers [`FsRequest::CopyFile`] and [`FsRequest::CopyFileWithProgress`]:
    /// the number of bytes copied.
    Bytes(Result<u64, IoFailure>),
    /// Answers every request that changes the filesystem.
    Done(Result<(), IoFailure>),
}

/// A directory listing entry, with its paths as character sequences.
pub struct EntryView {
    /// Path of the entry.
    pub path: Seq<char>,
    /// Name of the entry.
    pub file_name: Seq<char>,
    /// Type of the entry, without following symbolic links.
    pub file_type: Result<EntryType, IoFailure>,
    /// Metadata of the entry, without following symbolic links.
    pub metadata: Result<EntryMetadata, IoFailure>,
}

impl View for DirectoryEntryInfo {
    type V = EntryView;

    open spec fn view(&self) -> EntryView {
        EntryView {
            path: self.path@,
            file_name: self.file_name@,
            file_type: self.file_type,
            metadata: self.metadata,
        }
    }
}

/// The views of the entries of a directory listing.
pub open spec fn listing_view(entries: Seq<Result<DirectoryEntryInfo, IoFailure>>) -> Seq<
    Result<EntryView, IoFailure>,
> {
    entries.map_values(
        |e: Result<DirectoryEntryInfo, IoFailure>|
            match e {
                Ok(info) => Ok(info@),
                Err(f) => Err(f),
            },
    )
}

/// A filesystem request, with its paths as character sequences.
pub enum RequestView {
    SymlinkMetadata { path: Seq<char> },
    Metadata { path: Seq<char> },
    Canonicalize { path: Seq<char> },
    ReadLink { path: Seq<char> },
    ReadDirectory { path: Seq<char> },
    ReadFirstDirectoryEntry { path: Seq<char> },
    CopyFile { source_path: Seq<char>, destination_path: Seq<char> },
    CopyFileWithProgress {
        source_path: Seq<char>,
        destination_path: Seq<char>,
        read_buffer_size: usize,
        write_buffer_size: usize,
        progress_update_byte_interval: u64,
    },
    Rename { from: Seq<char>, to: Seq<char> },
    RemoveFile { path: Seq<char> },
    RemoveDirectoryAll { path: Seq<char> },
    CreateDirectory { path: Seq<char> },
    CreateDirectoryAll { path: Seq<char> },
    CreateSymlink { link_path: Seq<char>, target_path: Seq<char> },
}

impl View for FsRequest {
    type V = RequestView;

    open spec fn view(&self) -> RequestView {
        match *self {
            FsRequest::SymlinkMetadata { path } => RequestView::SymlinkMetadata { path: path@ },
            FsRequest::Metadata { path } => RequestView::Metadata { path: path@ },
            FsRequest::Canonicalize { path } => RequestView::Canonicalize { path: path@ },
            FsRequest::ReadLink { path } => RequestView::ReadLink { path: path@ },
            FsRequest::ReadDirectory { path } => RequestView::ReadDirectory { path: path@ },
            FsRequest::ReadFirstDirectoryEntry { path } => RequestView::ReadFirstDirectoryEntry {
                path: path@,
            },
            FsRequest::CopyFile { source_path, destination_path } => RequestView::CopyFile {
                source_path: source_path@,
                destination_path: destination_path@,
            },
            FsRequest::CopyFileWithProgress {
                source_path,
                destination_path,
                read_buffer_size,
                write_buffer_size,
                progress_update_byte_interval,
            } => RequestView::CopyFileWithProgress {
                source_path: source_path@,
                destination_path: destination_path@,
                read_buffer_size,
                write_buffer_size,
                progress_update_byte_interval,
            },
            FsRequest::Rename { from, to } => RequestView::Rename { from: from@, to: to@ },
            FsRequest::RemoveFile { path } => RequestView::RemoveFile { path: path@ },
            FsRequest::RemoveDirectoryAll { path } => RequestView::RemoveDirectoryAll { path: path@ },
            FsRequest::CreateDirectory { path } => RequestView::CreateDirectory { path: path@ },
            FsRequest::CreateDirectoryAll { path } => RequestView::CreateDirectoryAll { path: path@ },
            FsRequest::CreateSymlink { link_path, target_path } => RequestView::CreateSymlink {
                link_path: link_path@,
                target_path: target_path@,
            },
        }
    }
}

/// Whether `response` is of the kind that performing `request` produces.
pub open spec fn answers(request: FsRequest, response: FsResponse) -> bool {
    match request {
        FsRequest::SymlinkMetadata { .. } => response is Metadata,
        FsRequest::Metadata { .. } => response is Metadata,
        FsRequest::Canonicalize { .. } => response is Path,
        FsRequest::ReadLink { .. } => response is Path,
        FsRequest::ReadDirectory { .. } => response is Listing,
        FsRequest::ReadFirstDirectoryEntry { .. } => response is FirstEntry,
        FsRequest::CopyFile { .. } => response is Bytes,
        FsRequest::CopyFileWithProgress { .. } => response is Bytes,
        _ => response is Done,
    }
}

/// Whether `response` answers `request`.
pub fn response_answers(request: &FsRequest, response: &FsResponse) -> (r: bool)
    ensures
        r == answers(*request, *response),
{
    match request {
        FsRequest::SymlinkMetadata { .. } | FsRequest::Metadata { .. } => {
            matches!(response, FsResponse::Metadata(_))
        },
        FsRequest::Canonicalize { .. } | FsRequest::ReadLink { .. } => {
            matches!(response, FsResponse::Path(_))
        },
        FsRequest::ReadDirectory { .. } => matches!(response, FsResponse::Listing(_)),
        FsRequest::ReadFirstDirectoryEntry { .. } => matches!(response, FsResponse::FirstEntry(_)),
        FsRequest::CopyFile { .. } | FsRequest::CopyFileWithProgress { .. } => {
            matches!(response, FsResponse::Bytes(_))
        },
        _ => matches!(response, FsResponse::Done(_)),
    }
}

/// What a state machine of this library wants next.
#[derive(Debug)]
pub enum MachineStep<R> {
    /// Perform this request and resume the machine with its response.
    Perform(FsRequest),
    /// The operation has finished with this result.
    Finished(R),
}

/// Whether a path exists, judged from the outcome of reading its metadata:
/// a failure that reports a missing path means the path does not exist,
/// any other failure is passed on.
pub open spec fn existence_of(metadata: Result<EntryMetadata, IoFailure>) -> Result<bool, std::io::Error> {
    match metadata {
        Ok(_) => Ok(true),
        Err(failure) => if failure.not_found {
            Ok(false)
        } else {
            Err(failure.error)
        },
    }
}

/// Whether a path exists (without following a symbolic link at it), given the
/// outcome of reading its metadata without following links.
pub fn try_exists_without_follow(symlink_metadata: Result<EntryMetadata, IoFailure>) -> (r: Result<
    bool,
    std::io::Error,
>)
    ensures
        r == existence_of(symlink_metadata),
{
    match symlink_metadata {
        Ok(_) => Ok(true),
        Err(failure) => if failure.not_found {
            Ok(false)
        } else {
            Err(failure.error)
        },
    }
}

/// Whether metadata read with links followed reports a regular file
/// (a failed read reports no file).
pub open spec fn reports_file(metadata: Result<EntryMetadata, IoFailure>) -> bool {
    metadata matches Ok(m) && m.entry_type == EntryType::File
}

/// Whether metadata read with links followed reports a directory
/// (a failed read reports no directory).
pub open spec fn reports_directory(metadata: Result<EntryMetadata, IoFailure>) -> bool {
    metadata matches Ok(m) && m.entry_type == EntryType::Directory
}

/// Whether a request only inspects the filesystem (it reads metadata, paths or listings,
/// and changes nothing).
pub open spec fn is_inspection(request: RequestView) -> bool {
    ||| request is SymlinkMetadata
    ||| request is Metadata
    ||| request is Canonicalize
    ||| request is ReadLink
    ||| request is ReadDirectory
    ||| request is ReadFirstDirectoryEntry
}

} // verus!
