//! A complete scan of a directory tree into lists of its files and directories.
use vstd::prelude::*;

use super::scan::DirectoryScanDepthLimit;
use crate::error::{DirectoryScanError, DirectorySizeScanError, FileSizeError};
use crate::file::{FileSizeQuery, FileSizeQueryPhase};
use crate::requests::{existence_of, DirectoryEntryInfo, EntryType, FsRequest, FsResponse, IoFailure, MachineStep};

verus! {

/// Options that influence a complete directory scan.
#[derive(Clone, Copy, PartialEq, Eq, Debug, Structural)]
pub struct DirectoryScanOptions {
    /// The maximum directory depth to scan.
    pub maximum_scan_depth: DirectoryScanDepthLimit,
    /// Whether symbolic links are followed: their destinations are listed (and scanned)
    /// instead of the links.
    pub follow_symbolic_links: bool,
}

impl Default for DirectoryScanOptions {
    /// No depth limit; links are not followed.
    fn default() -> (r: Self)
        ensures
            r.maximum_scan_depth == DirectoryScanDepthLimit::Unlimited,
            !r.follow_symbolic_links,
    {
        Self { maximum_scan_depth: DirectoryScanDepthLimit::Unlimited, follow_symbolic_links: false }
    }
}

/// The files and directories of a scan.
#[derive(Debug)]
pub struct ScannedFilesAndDirectories {
    /// Scanned files (their paths).
    pub files: Vec<String>,
    /// Scanned directories (their paths).
    pub directories: Vec<String>,
}

/// The result of a complete directory scan.
#[derive(Debug)]
pub struct DirectoryScan {
    root_directory_path: String,
    covers_entire_subtree: bool,
    files: Vec<String>,
    directories: Vec<String>,
}

impl DirectoryScan {
    /// The scanned directory.
    pub closed spec fn root(&self) -> String {
        self.root_directory_path
    }

    /// Whether nothing was left out because of the depth limit.
    pub closed spec fn covers_all(&self) -> bool {
        self.covers_entire_subtree
    }

    /// The scanned files, in scan order.
    pub closed spec fn scanned_files(&self) -> Seq<String> {
        self.files@
    }

    /// The scanned directories, in scan order.
    pub closed spec fn scanned_directories(&self) -> Seq<String> {
        self.directories@
    }

    /// The scanned files.
    pub fn files(&self) -> (r: &[String])
        ensures
            r@ == self.scanned_files(),
    {
        self.files.as_slice()
    }

    /// The scanned files, consuming the scan.
    pub fn into_files(self) -> (r: Vec<String>)
        ensures
            r@ == self.scanned_files(),
    {
        self.files
    }

    /// The scanned directories.
    pub fn directories(&self) -> (r: &[String])
        ensures
            r@ == self.scanned_directories(),
    {
        self.directories.as_slice()
    }

    /// The scanned directories, consuming the scan.
    pub fn into_directories(self) -> (r: Vec<String>)
        ensures
            r@ == self.scanned_directories(),
    {
        self.directories
    }

    /// The scanned files and directories, consuming the scan.
    pub fn into_scanned_files_and_directories(self) -> (r: ScannedFilesAndDirectories)
        ensures
            r.files@ == self.scanned_files(),
            r.directories@ == self.scanned_directories(),
    {
        ScannedFilesAndDirectories { files: self.files, directories: self.directories }
    }

    /// Whether the scan covers the entire directory tree (nothing was left out because of
    /// the depth limit).
    pub fn covers_entire_directory_tree(&self) -> (r: bool)
        ensures
            r == self.covers_all(),
    {
        self.covers_entire_subtree
    }
}

/// A directory waiting to be scanned.
#[derive(Debug)]
pub struct PendingTreeDirectory {
    /// Path of the directory.
    pub path: String,
    /// Depth of the directory (`0` for the scanned directory itself).
    pub depth: usize,
}

/// Where a complete scan stands.
#[derive(Debug)]
pub enum TreeScanPhase {
    /// Waiting for the metadata of what the scanned path leads to.
    AwaitRootMetadata,
    /// Waiting for the listing of a directory.
    AwaitListing { directory: PendingTreeDirectory },
    /// Waiting for the destination of a symbolic link; `remaining` holds the listing's other
    /// unprocessed entries, the next one last.
    AwaitLinkTarget { directory: PendingTreeDirectory, link_path: String, remaining: Vec<Result<DirectoryEntryInfo, IoFailure>> },
    /// Waiting for the metadata of a symbolic link's destination.
    AwaitLinkTargetMetadata {
        directory: PendingTreeDirectory,
        link_path: String,
        resolved: String,
        remaining: Vec<Result<DirectoryEntryInfo, IoFailure>>,
    },
    /// The scan has finished.
    Finished,
}

/// Where a complete scan stands, with listings as sequences.
pub enum TreePhaseView {
    AwaitRootMetadata,
    AwaitListing { directory: PendingTreeDirectory },
    AwaitLinkTarget { directory: PendingTreeDirectory, link_path: String, remaining: Seq<Result<DirectoryEntryInfo, IoFailure>> },
    AwaitLinkTargetMetadata {
        directory: PendingTreeDirectory,
        link_path: String,
        resolved: String,
        remaining: Seq<Result<DirectoryEntryInfo, IoFailure>>,
    },
    Finished,
}

/// The state of a complete scan.
pub struct TreeScanView {
    /// The scanned directory.
    pub root: String,
    /// The options of the scan.
    pub options: DirectoryScanOptions,
    /// Whether nothing was left out because of the depth limit so far.
    pub covers: bool,
    /// Files found so far.
    pub files: Seq<String>,
    /// Directories found so far.
    pub directories: Seq<String>,
    /// Directories waiting to be scanned, the next one last.
    pub stack: Seq<PendingTreeDirectory>,
    /// Where the scan stands.
    pub phase: TreePhaseView,
}

/// What a listed entry leads to, when it needs no further reading.
pub enum TreeEntryOutcome {
    /// The scan fails.
    Fail(DirectoryScanError),
    /// The entry is recorded (as a file or a directory, or not at all), perhaps queued for
    /// reading.
    Record { file: Option<String>, directory: Option<String>, scan: Option<PendingTreeDirectory> },
    /// The entry is a symbolic link whose destination must be read first.
    Resolve(String),
}

/// The sequence holding the value of `o`, if any.
pub open spec fn optional_path(o: Option<String>) -> Seq<String> {
    match o {
        Some(p) => seq![p],
        None => Seq::empty(),
    }
}

/// The sequence holding the value of `o`, if any.
pub open spec fn optional_directory(o: Option<PendingTreeDirectory>) -> Seq<PendingTreeDirectory> {
    match o {
        Some(d) => seq![d],
        None => Seq::empty(),
    }
}

impl TreeScanView {
    /// The scan, finished with `result`.
    pub open spec fn finish(self, result: Result<(), DirectoryScanError>) -> (TreeScanView, MachineStep<Result<(), DirectoryScanError>>) {
        (TreeScanView { phase: TreePhaseView::Finished, ..self }, MachineStep::Finished(result))
    }

    /// Whether `directory` lies below the depth limit: it is read only to learn whether
    /// anything in it is left out of the scan.
    pub open spec fn beyond_limit(self, directory: PendingTreeDirectory) -> bool {
        match self.options.maximum_scan_depth {
            DirectoryScanDepthLimit::Limited { maximum_depth } => directory.depth > maximum_depth,
            DirectoryScanDepthLimit::Unlimited => false,
        }
    }

    /// The scan, reading the next directory or finishing.
    pub open spec fn pop_next(self) -> (TreeScanView, MachineStep<Result<(), DirectoryScanError>>) {
        if self.stack.len() == 0 {
            self.finish(Ok(()))
        } else {
            (
                TreeScanView { stack: self.stack.drop_last(), phase: TreePhaseView::AwaitListing { directory: self.stack.last() }, ..self },
                MachineStep::Perform(FsRequest::ReadDirectory { path: self.stack.last().path }),
            )
        }
    }

    /// How a directory entry at `path` found in `directory` is recorded: it is listed, and
    /// queued for reading (below the depth limit it is only looked into, to learn whether
    /// anything in it is left out).
    pub open spec fn directory_outcome(self, directory: PendingTreeDirectory, path: String) -> TreeEntryOutcome {
        TreeEntryOutcome::Record {
            file: None,
            directory: Some(path),
            scan: Some(PendingTreeDirectory { path, depth: directory.depth.saturating_add(1) }),
        }
    }

    /// What the entry `entry` of `directory` leads to.
    pub open spec fn entry_outcome(self, directory: PendingTreeDirectory, entry: Result<DirectoryEntryInfo, IoFailure>) -> TreeEntryOutcome {
        let error_of = |e: std::io::Error| TreeEntryOutcome::Fail(DirectoryScanError::UnableToReadDirectoryEntry { directory_path: directory.path, error: e });
        match entry {
            Err(f) => error_of(f.error),
            Ok(info) => match info.file_type {
                Err(f) => error_of(f.error),
                Ok(EntryType::File) => TreeEntryOutcome::Record { file: Some(info.path), directory: None, scan: None },
                Ok(EntryType::Directory) => self.directory_outcome(directory, info.path),
                Ok(EntryType::Symlink) => TreeEntryOutcome::Resolve(info.path),
                Ok(EntryType::Other) => TreeEntryOutcome::Record { file: None, directory: None, scan: None },
            },
        }
    }

    /// The scan with `outcome` recorded.
    pub open spec fn record(self, file: Option<String>, directory: Option<String>, scan: Option<PendingTreeDirectory>) -> TreeScanView {
        TreeScanView {
            files: self.files + optional_path(file),
            directories: self.directories + optional_path(directory),
            stack: self.stack + optional_directory(scan),
            ..self
        }
    }

    /// The scan, processing the remaining entries of the listing of `directory` (the next one last).
    pub open spec fn drain(self, directory: PendingTreeDirectory, remaining: Seq<Result<DirectoryEntryInfo, IoFailure>>) -> (
        TreeScanView,
        MachineStep<Result<(), DirectoryScanError>>,
    )
        decreases remaining.len(),
    {
        if remaining.len() == 0 {
            self.pop_next()
        } else {
            match self.entry_outcome(directory, remaining.last()) {
                TreeEntryOutcome::Fail(e) => self.finish(Err(e)),
                TreeEntryOutcome::Record { file, directory: d, scan } => {
                    self.record(file, d, scan).drain(directory, remaining.drop_last())
                },
                TreeEntryOutcome::Resolve(link_path) => (
                    TreeScanView {
                        phase: TreePhaseView::AwaitLinkTarget { directory, link_path, remaining: remaining.drop_last() },
                        ..self
                    },
                    MachineStep::Perform(FsRequest::ReadLink { path: link_path }),
                ),
            }
        }
    }

    /// How a symbolic link at `link_path` leading to `resolved`, with the metadata `metadata`,
    /// is recorded.
    pub open spec fn link_outcome(
        self,
        directory: PendingTreeDirectory,
        link_path: String,
        resolved: String,
        metadata: crate::requests::EntryMetadata,
    ) -> TreeEntryOutcome {
        let t = metadata.entry_type;
        if self.options.follow_symbolic_links {
            if t == EntryType::File {
                TreeEntryOutcome::Record { file: Some(resolved), directory: None, scan: None }
            } else if t == EntryType::Directory {
                self.directory_outcome(directory, resolved)
            } else {
                TreeEntryOutcome::Record { file: None, directory: None, scan: None }
            }
        } else if t == EntryType::File {
            TreeEntryOutcome::Record { file: Some(link_path), directory: None, scan: None }
        } else if t == EntryType::Directory {
            TreeEntryOutcome::Record { file: None, directory: Some(link_path), scan: None }
        } else {
            TreeEntryOutcome::Record { file: None, directory: None, scan: None }
        }
    }

    /// The next state and step of the scan, given the response to its pending request.
    pub open spec fn next(self, response: FsResponse) -> (TreeScanView, MachineStep<Result<(), DirectoryScanError>>) {
        match (self.phase, response) {
            (TreePhaseView::AwaitRootMetadata, FsResponse::Metadata(m)) => match m {
                Err(f) => if f.not_found {
                    self.finish(Err(DirectoryScanError::NotFound { path: self.root }))
                } else {
                    self.finish(Err(DirectoryScanError::UnableToReadDirectory { directory_path: self.root, error: f.error }))
                },
                Ok(meta) => if meta.entry_type != EntryType::Directory {
                    self.finish(Err(DirectoryScanError::NotADirectory { path: self.root }))
                } else {
                    TreeScanView { stack: self.stack.push(PendingTreeDirectory { path: self.root, depth: 0 }), ..self }.pop_next()
                },
            },
            (TreePhaseView::AwaitListing { directory }, FsResponse::Listing(l)) => if self.beyond_limit(directory) {
                TreeScanView { covers: self.covers && (l matches Ok(entries) && entries@.len() == 0), ..self }.pop_next()
            } else {
                match l {
                Err(f) => self.finish(Err(DirectoryScanError::UnableToReadDirectory { directory_path: directory.path, error: f.error })),
                Ok(entries) => self.drain(directory, entries@.reverse()),
                }
            },
            (TreePhaseView::AwaitLinkTarget { directory, link_path, remaining }, FsResponse::Path(p)) => match p {
                Err(f) => self.finish(Err(DirectoryScanError::UnableToReadDirectoryEntry { directory_path: directory.path, error: f.error })),
                Ok(resolved) => (
                    TreeScanView { phase: TreePhaseView::AwaitLinkTargetMetadata { directory, link_path, resolved, remaining }, ..self },
                    MachineStep::Perform(FsRequest::Metadata { path: resolved }),
                ),
            },
            (TreePhaseView::AwaitLinkTargetMetadata { directory, link_path, resolved, remaining }, FsResponse::Metadata(m)) => {
                match existence_of(m) {
                    Err(e) => self.finish(Err(DirectoryScanError::UnableToReadDirectoryEntry { directory_path: directory.path, error: e })),
                    Ok(false) => self.drain(directory, remaining),
                    Ok(true) => match self.link_outcome(directory, link_path, resolved, m->Ok_0) {
                        TreeEntryOutcome::Record { file, directory: d, scan } => {
                            self.record(file, d, scan).drain(directory, remaining)
                        },
                        _ => self.drain(directory, remaining),
                    },
                }
            },
            _ => self.finish(Ok(())),
        }
    }
}

/// Processing a listing does not depend on the phase the scan was in.
pub proof fn lemma_drain_ignores_phase(
    v: TreeScanView,
    phase: TreePhaseView,
    directory: PendingTreeDirectory,
    remaining: Seq<Result<DirectoryEntryInfo, IoFailure>>,
)
    ensures
        (TreeScanView { phase, ..v }).drain(directory, remaining) == v.drain(directory, remaining),
    decreases remaining.len(),
{
    if remaining.len() > 0 {
        match v.entry_outcome(directory, remaining.last()) {
            TreeEntryOutcome::Record { file, directory: d, scan } => {
                lemma_drain_ignores_phase(v.record(file, d, scan), phase, directory, remaining.drop_last());
                assert(TreeScanView { phase, ..v }.record(file, d, scan) == TreeScanView {
                    phase,
                    ..v.record(file, d, scan)
                });
            },
            _ => {},
        }
    }
}

/// The view of a complete scan's phase.
pub open spec fn tree_phase_view(phase: TreeScanPhase) -> TreePhaseView {
    match phase {
        TreeScanPhase::AwaitRootMetadata => TreePhaseView::AwaitRootMetadata,
        TreeScanPhase::AwaitListing { directory } => TreePhaseView::AwaitListing { directory },
        TreeScanPhase::AwaitLinkTarget { directory, link_path, remaining } => {
            TreePhaseView::AwaitLinkTarget { directory, link_path, remaining: remaining@ }
        },
        TreeScanPhase::AwaitLinkTargetMetadata { directory, link_path, resolved, remaining } => {
            TreePhaseView::AwaitLinkTargetMetadata { directory, link_path, resolved, remaining: remaining@ }
        },
        TreeScanPhase::Finished => TreePhaseView::Finished,
    }
}

/// What processing one listed entry led to.
enum EntryProcessing {
    Failed(DirectoryScanError),
    Recorded,
    NeedsLink(String),
}

/// Scans a directory tree completely (up to a depth limit) into lists of its files and
/// directories. Directories are scanned last found, first scanned.
#[derive(Debug)]
pub struct DirectoryTreeScan {
    root: String,
    options: DirectoryScanOptions,
    covers: bool,
    files: Vec<String>,
    directories: Vec<String>,
    stack: Vec<PendingTreeDirectory>,
    phase: TreeScanPhase,
}

impl DirectoryTreeScan {
    /// The state of the scan.
    pub closed spec fn view_state(&self) -> TreeScanView {
        TreeScanView {
            root: self.root,
            options: self.options,
            covers: self.covers,
            files: self.files@,
            directories: self.directories@,
            stack: self.stack@,
            phase: tree_phase_view(self.phase),
        }
    }

    /// Whether `response` can resume this scan.
    pub open spec fn accepts(&self, response: FsResponse) -> bool {
        match self.view_state().phase {
            TreePhaseView::AwaitRootMetadata => response is Metadata,
            TreePhaseView::AwaitListing { .. } => response is Listing,
            TreePhaseView::AwaitLinkTarget { .. } => response is Path,
            TreePhaseView::AwaitLinkTargetMetadata { .. } => response is Metadata,
            TreePhaseView::Finished => false,
        }
    }

    /// Starts a complete scan of `directory_path` with `options`.
    pub fn start(directory_path: String, options: DirectoryScanOptions) -> (r: (DirectoryTreeScan, FsRequest))
        ensures
            r.0.view_state() == (TreeScanView {
                root: directory_path,
                options,
                covers: true,
                files: Seq::empty(),
                directories: Seq::empty(),
                stack: Seq::empty(),
                phase: TreePhaseView::AwaitRootMetadata,
            }),
            r.1 == (FsRequest::Metadata { path: directory_path }),
    {
        let request = FsRequest::Metadata { path: directory_path.clone() };
        let scan = DirectoryTreeScan {
            root: directory_path,
            options,
            covers: true,
            files: Vec::new(),
            directories: Vec::new(),
            stack: Vec::new(),
            phase: TreeScanPhase::AwaitRootMetadata,
        };
        proof {
            assert(scan.view_state().files =~= Seq::empty());
            assert(scan.view_state().directories =~= Seq::empty());
            assert(scan.view_state().stack =~= Seq::empty());
        }
        (scan, request)
    }

    /// Whether `response` can resume this scan.
    pub fn can_accept(&self, response: &FsResponse) -> (r: bool)
        ensures
            r == self.accepts(*response),
    {
        match (&self.phase, response) {
            (TreeScanPhase::AwaitRootMetadata, FsResponse::Metadata(_)) => true,
            (TreeScanPhase::AwaitListing { .. }, FsResponse::Listing(_)) => true,
            (TreeScanPhase::AwaitLinkTarget { .. }, FsResponse::Path(_)) => true,
            (TreeScanPhase::AwaitLinkTargetMetadata { .. }, FsResponse::Metadata(_)) => true,
            _ => false,
        }
    }

    /// The result of the finished scan.
    pub fn into_scan(self) -> (r: DirectoryScan)
        ensures
            r.root() == self.view_state().root,
            r.covers_all() == self.view_state().covers,
            r.scanned_files() == self.view_state().files,
            r.scanned_directories() == self.view_state().directories,
    {
        DirectoryScan {
            root_directory_path: self.root,
            covers_entire_subtree: self.covers,
            files: self.files,
            directories: self.directories,
        }
    }

    /// Records an entry.
    fn record(&mut self, file: Option<String>, directory: Option<String>, scan: Option<PendingTreeDirectory>)
        ensures
            final(self).view_state() == old(self).view_state().record(file, directory, scan),
    {
        let ghost v = self.view_state();
        match file {
            Some(f) => self.files.push(f),
            None => {},
        }
        match directory {
            Some(d) => self.directories.push(d),
            None => {},
        }
        match scan {
            Some(s) => self.stack.push(s),
            None => {},
        }
        proof {
            assert(self.files@ =~= v.files + optional_path(file));
            assert(self.directories@ =~= v.directories + optional_path(directory));
            assert(self.stack@ =~= v.stack + optional_directory(scan));
        }
    }

    /// Records a directory entry at `path` found in `directory`.
    fn record_directory(&mut self, directory: &PendingTreeDirectory, path: String)
        ensures
            old(self).view_state().directory_outcome(*directory, path) matches TreeEntryOutcome::Record { file, directory: d, scan }
                && final(self).view_state() == old(self).view_state().record(file, d, scan),
    {
        let deeper = directory.depth.saturating_add(1);
        self.record(None, Some(path.clone()), Some(PendingTreeDirectory { path, depth: deeper }))
    }

    /// Processes one listed entry of `directory`.
    fn process_entry(&mut self, directory: &PendingTreeDirectory, entry: Result<DirectoryEntryInfo, IoFailure>) -> (r: EntryProcessing)
        ensures
            match old(self).view_state().entry_outcome(*directory, entry) {
                TreeEntryOutcome::Fail(e) => r == EntryProcessing::Failed(e) && final(self).view_state() == old(self).view_state(),
                TreeEntryOutcome::Record { file, directory: d, scan } => r is Recorded
                    && final(self).view_state() == old(self).view_state().record(file, d, scan),
                TreeEntryOutcome::Resolve(p) => r == EntryProcessing::NeedsLink(p) && final(self).view_state() == old(self).view_state(),
            },
    {
        match entry {
            Err(f) => EntryProcessing::Failed(DirectoryScanError::UnableToReadDirectoryEntry {
                directory_path: directory.path.clone(),
                error: f.error,
            }),
            Ok(info) => match info.file_type {
                Err(f) => EntryProcessing::Failed(DirectoryScanError::UnableToReadDirectoryEntry {
                    directory_path: directory.path.clone(),
                    error: f.error,
                }),
                Ok(EntryType::File) => {
                    self.record(Some(info.path), None, None);
                    EntryProcessing::Recorded
                },
                Ok(EntryType::Directory) => {
                    self.record_directory(directory, info.path);
                    EntryProcessing::Recorded
                },
                Ok(EntryType::Symlink) => EntryProcessing::NeedsLink(info.path),
                Ok(EntryType::Other) => {
                    self.record(None, None, None);
                    EntryProcessing::Recorded
                },
            },
        }
    }

    /// Reads the next directory, or finishes.
    fn pop_next_directory(&mut self) -> (r: MachineStep<Result<(), DirectoryScanError>>)
        ensures
            (final(self).view_state(), r) == old(self).view_state().pop_next(),
    {
        match self.stack.pop() {
            None => {
                self.phase = TreeScanPhase::Finished;
                MachineStep::Finished(Ok(()))
            },
            Some(directory) => {
                let request = FsRequest::ReadDirectory { path: directory.path.clone() };
                self.phase = TreeScanPhase::AwaitListing { directory };
                MachineStep::Perform(request)
            },
        }
    }

    /// Processes the remaining entries of the listing of `directory` (the next one last).
    fn drain_listing(&mut self, directory: PendingTreeDirectory, remaining: Vec<Result<DirectoryEntryInfo, IoFailure>>) -> (r: MachineStep<
        Result<(), DirectoryScanError>,
    >)
        ensures
            (final(self).view_state(), r) == old(self).view_state().drain(directory, remaining@),
    {
        let ghost target = old(self).view_state().drain(directory, remaining@);
        let mut rest = remaining;
        loop
            invariant
                target == old(self).view_state().drain(directory, remaining@),
                self.view_state().drain(directory, rest@) == target,
            decreases rest.len(),
        {
            let ghost before = rest@;
            match rest.pop() {
                None => {
                    return self.pop_next_directory();
                },
                Some(entry) => {
                    proof {
                        assert(rest@ =~= before.drop_last());
                    }
                    match self.process_entry(&directory, entry) {
                        EntryProcessing::Failed(e) => {
                            self.phase = TreeScanPhase::Finished;
                            return MachineStep::Finished(Err(e));
                        },
                        EntryProcessing::Recorded => {},
                        EntryProcessing::NeedsLink(link_path) => {
                            let request = FsRequest::ReadLink { path: link_path.clone() };
                            self.phase = TreeScanPhase::AwaitLinkTarget { directory, link_path, remaining: rest };
                            return MachineStep::Perform(request);
                        },
                    }
                },
            }
        }
    }

    /// The listing `entries`, the first entry last.
    fn reversed(entries: Vec<Result<DirectoryEntryInfo, IoFailure>>) -> (r: Vec<Result<DirectoryEntryInfo, IoFailure>>)
        ensures
            r@ == entries@.reverse(),
    {
        let ghost original = entries@;
        let mut entries = entries;
        let mut reversed: Vec<Result<DirectoryEntryInfo, IoFailure>> = Vec::new();
        while entries.len() > 0
            invariant
                original.len() == entries@.len() + reversed@.len(),
                entries@ =~= original.take(entries.len() as int),
                forall|i: int| 0 <= i < reversed.len() ==> #[trigger] reversed@[i] == original[original.len() - 1 - i],
            decreases entries.len(),
        {
            let e = entries.pop().unwrap();
            reversed.push(e);
        }
        proof {
            assert(reversed@ =~= original.reverse());
        }
        reversed
    }

    /// Resumes the scan with the response to its pending request.
    pub fn resume(&mut self, response: FsResponse) -> (r: MachineStep<Result<(), DirectoryScanError>>)
        requires
            old(self).accepts(response),
        ensures
            (final(self).view_state(), r) == old(self).view_state().next(response),
    {
        let mut phase = TreeScanPhase::Finished;
        std::mem::swap(&mut phase, &mut self.phase);
        match (phase, response) {
            (TreeScanPhase::AwaitRootMetadata, FsResponse::Metadata(m)) => match m {
                Err(f) => {
                    let path = self.root.clone();
                    if f.not_found {
                        MachineStep::Finished(Err(DirectoryScanError::NotFound { path }))
                    } else {
                        MachineStep::Finished(Err(DirectoryScanError::UnableToReadDirectory { directory_path: path, error: f.error }))
                    }
                },
                Ok(meta) => if meta.entry_type != EntryType::Directory {
                    MachineStep::Finished(Err(DirectoryScanError::NotADirectory { path: self.root.clone() }))
                } else {
                    self.stack.push(PendingTreeDirectory { path: self.root.clone(), depth: 0 });
                    self.pop_next_directory()
                },
            },
            (TreeScanPhase::AwaitListing { directory }, FsResponse::Listing(l)) => {
                let beyond_limit = match self.options.maximum_scan_depth {
                    DirectoryScanDepthLimit::Limited { maximum_depth } => directory.depth > maximum_depth,
                    DirectoryScanDepthLimit::Unlimited => false,
                };
                if beyond_limit {
                    let empty = match &l {
                        Ok(entries) => entries.len() == 0,
                        Err(_) => false,
                    };
                    self.covers = self.covers && empty;
                    self.pop_next_directory()
                } else {
                    match l {
                        Err(f) => MachineStep::Finished(Err(DirectoryScanError::UnableToReadDirectory {
                            directory_path: directory.path,
                            error: f.error,
                        })),
                        Ok(entries) => {
                            let remaining = Self::reversed(entries);
                            proof {
                                lemma_drain_ignores_phase(old(self).view_state(), self.view_state().phase, directory, remaining@);
                            }
                            self.drain_listing(directory, remaining)
                        },
                    }
                }
            },
            (TreeScanPhase::AwaitLinkTarget { directory, link_path, remaining }, FsResponse::Path(p)) => match p {
                Err(f) => MachineStep::Finished(Err(DirectoryScanError::UnableToReadDirectoryEntry {
                    directory_path: directory.path,
                    error: f.error,
                })),
                Ok(resolved) => {
                    let request = FsRequest::Metadata { path: resolved.clone() };
                    self.phase = TreeScanPhase::AwaitLinkTargetMetadata { directory, link_path, resolved, remaining };
                    MachineStep::Perform(request)
                },
            },
            (TreeScanPhase::AwaitLinkTargetMetadata { directory, link_path, resolved, remaining }, FsResponse::Metadata(m)) => {
                match m {
                    Err(f) => if f.not_found {
                        proof {
                            lemma_drain_ignores_phase(old(self).view_state(), self.view_state().phase, directory, remaining@);
                        }
                        self.drain_listing(directory, remaining)
                    } else {
                        MachineStep::Finished(Err(DirectoryScanError::UnableToReadDirectoryEntry {
                            directory_path: directory.path,
                            error: f.error,
                        }))
                    },
                    Ok(meta) => {
                        let ghost before = self.view_state();
                        let t = meta.entry_type;
                        if self.options.follow_symbolic_links {
                            if t == EntryType::File {
                                self.record(Some(resolved), None, None);
                            } else if t == EntryType::Directory {
                                self.record_directory(&directory, resolved);
                            } else {
                                self.record(None, None, None);
                            }
                        } else if t == EntryType::File {
                            self.record(Some(link_path), None, None);
                        } else if t == EntryType::Directory {
                            self.record(None, Some(link_path), None);
                        } else {
                            self.record(None, None, None);
                        }
                        proof {
                            match old(self).view_state().link_outcome(directory, link_path, resolved, meta) {
                                TreeEntryOutcome::Record { file, directory: d, scan } => {
                                    lemma_drain_ignores_phase(
                                        old(self).view_state().record(file, d, scan),
                                        before.phase,
                                        directory,
                                        remaining@,
                                    );
                                },
                                _ => {},
                            }
                        }
                        self.drain_listing(directory, remaining)
                    },
                }
            },
            (phase, _) => {
                self.phase = phase;
                MachineStep::Finished(Ok(()))
            },
        }
    }
}

impl DirectoryScan {
    /// Starts a complete scan of `directory_path` with `options`; once it finished, its
    /// [`DirectoryTreeScan::into_scan`] is the scan.
    pub fn scan_with_options(directory_path: String, options: DirectoryScanOptions) -> (r: (DirectoryTreeScan, FsRequest))
        ensures
            r.0.view_state() == (TreeScanView {
                root: directory_path,
                options,
                covers: true,
                files: Seq::empty(),
                directories: Seq::empty(),
                stack: Seq::empty(),
                phase: TreePhaseView::AwaitRootMetadata,
            }),
            r.1 == (FsRequest::Metadata { path: directory_path }),
    {
        DirectoryTreeScan::start(directory_path, options)
    }
}

/// The size error that a file size error of a scanned file becomes.
pub open spec fn scanned_file_size_error(error: FileSizeError) -> DirectorySizeScanError {
    match error {
        FileSizeError::NotFound { path } => DirectorySizeScanError::ScanEntryNoLongerExists { path },
        FileSizeError::NotAFile { path } => DirectorySizeScanError::ScanEntryNoLongerExists { path },
        FileSizeError::UnableToAccessFile { file_path, error } => DirectorySizeScanError::UnableToAccessFile { file_path, error },
        FileSizeError::OtherIoError { error } => DirectorySizeScanError::OtherIoError { error },
    }
}

/// Where a scan size query stands.
#[derive(Debug)]
pub enum ScanSizePhase {
    /// Querying the size of the file at the current index.
    QueryingFile(FileSizeQuery),
    /// Waiting for the metadata of the directory at the current index.
    AwaitDirectoryMetadata,
    /// The query has finished.
    Finished,
}

/// Sums the sizes of the files and directories of a complete scan: each file's size (links
/// followed), then each directory's own size.
#[derive(Debug)]
pub struct ScanSizeQuery {
    /// The scanned files.
    pub files: Vec<String>,
    /// The scanned directories.
    pub directories: Vec<String>,
    /// The index of the current file, then of the current directory.
    pub index: usize,
    /// The sum so far (saturated at `u64::MAX`).
    pub total: u64,
    /// Where the query stands.
    pub phase: ScanSizePhase,
}

impl ScanSizeQuery {
    /// The query at `index`, with `total` so far: the next file size query, directory metadata
    /// request, or the result.
    pub open spec fn at_file(self, index: usize) -> (ScanSizeQuery, MachineStep<Result<u64, DirectorySizeScanError>>) {
        if index < self.files.len() {
            let query = FileSizeQuery { file_path: self.files@[index as int], phase: FileSizeQueryPhase::AwaitMetadata };
            (
                ScanSizeQuery { index, phase: ScanSizePhase::QueryingFile(query), ..self },
                MachineStep::Perform(query.pending_request()),
            )
        } else {
            self.at_directory(0)
        }
    }

    /// The query at the directory `index`.
    pub open spec fn at_directory(self, index: usize) -> (ScanSizeQuery, MachineStep<Result<u64, DirectorySizeScanError>>) {
        if index < self.directories.len() {
            (
                ScanSizeQuery { index, phase: ScanSizePhase::AwaitDirectoryMetadata, ..self },
                MachineStep::Perform(FsRequest::Metadata { path: self.directories@[index as int] }),
            )
        } else {
            (ScanSizeQuery { index, phase: ScanSizePhase::Finished, ..self }, MachineStep::Finished(Ok(self.total)))
        }
    }

    /// The query, finished with `error`.
    pub open spec fn fail(self, error: DirectorySizeScanError) -> (ScanSizeQuery, MachineStep<Result<u64, DirectorySizeScanError>>) {
        (ScanSizeQuery { phase: ScanSizePhase::Finished, ..self }, MachineStep::Finished(Err(error)))
    }

    /// Whether the state is consistent.
    pub open spec fn well_formed(self) -> bool {
        match self.phase {
            ScanSizePhase::QueryingFile(_) => self.index < self.files.len(),
            ScanSizePhase::AwaitDirectoryMetadata => self.index < self.directories.len(),
            ScanSizePhase::Finished => true,
        }
    }

    /// Whether `response` can resume this query.
    pub open spec fn accepts(self, response: FsResponse) -> bool {
        match self.phase {
            ScanSizePhase::QueryingFile(q) => q.accepts(response),
            ScanSizePhase::AwaitDirectoryMetadata => response is Metadata,
            ScanSizePhase::Finished => false,
        }
    }

    /// The next state and step of the query, given the response to its pending request.
    pub open spec fn next(self, response: FsResponse) -> (ScanSizeQuery, MachineStep<Result<u64, DirectorySizeScanError>>) {
        match self.phase {
            ScanSizePhase::QueryingFile(q) => {
                let (q2, step) = q.next(response);
                match step {
                    MachineStep::Perform(r) => (ScanSizeQuery { phase: ScanSizePhase::QueryingFile(q2), ..self }, MachineStep::Perform(r)),
                    MachineStep::Finished(Err(e)) => self.fail(scanned_file_size_error(e)),
                    MachineStep::Finished(Ok(size)) => {
                        ScanSizeQuery { total: self.total.saturating_add(size), ..self }.at_file((self.index + 1) as usize)
                    },
                }
            },
            ScanSizePhase::AwaitDirectoryMetadata => match response {
                FsResponse::Metadata(Err(_)) => self.fail(DirectorySizeScanError::ScanEntryNoLongerExists {
                    path: self.directories@[self.index as int],
                }),
                FsResponse::Metadata(Ok(meta)) => {
                    ScanSizeQuery { total: self.total.saturating_add(meta.len), ..self }.at_directory((self.index + 1) as usize)
                },
                _ => self.fail(DirectorySizeScanError::ScanEntryNoLongerExists { path: self.directories@[self.index as int] }),
            },
            ScanSizePhase::Finished => (self, MachineStep::Finished(Ok(self.total))),
        }
    }

    /// Moves on to the file at `index`.
    fn go_to_file(&mut self, index: usize) -> (r: MachineStep<Result<u64, DirectorySizeScanError>>)
        ensures
            final(self).well_formed(),
            (*final(self), r) == old(self).at_file(index),
    {
        if index < self.files.len() {
            let (query, request) = FileSizeQuery::start(self.files[index].clone());
            self.index = index;
            self.phase = ScanSizePhase::QueryingFile(query);
            MachineStep::Perform(request)
        } else {
            self.go_to_directory(0)
        }
    }

    /// Moves on to the directory at `index`.
    fn go_to_directory(&mut self, index: usize) -> (r: MachineStep<Result<u64, DirectorySizeScanError>>)
        ensures
            final(self).well_formed(),
            (*final(self), r) == old(self).at_directory(index),
    {
        self.index = index;
        if index < self.directories.len() {
            self.phase = ScanSizePhase::AwaitDirectoryMetadata;
            MachineStep::Perform(FsRequest::Metadata { path: self.directories[index].clone() })
        } else {
            self.phase = ScanSizePhase::Finished;
            MachineStep::Finished(Ok(self.total))
        }
    }

    /// Whether `response` can resume this query.
    pub fn can_accept(&self, response: &FsResponse) -> (r: bool)
        ensures
            r == self.accepts(*response),
    {
        match &self.phase {
            ScanSizePhase::QueryingFile(q) => q.can_accept(response),
            ScanSizePhase::AwaitDirectoryMetadata => matches!(response, FsResponse::Metadata(_)),
            ScanSizePhase::Finished => false,
        }
    }

    /// Resumes the query with the response to its pending request.
    pub fn resume(&mut self, response: FsResponse) -> (r: MachineStep<Result<u64, DirectorySizeScanError>>)
        requires
            old(self).well_formed(),
            old(self).accepts(response),
        ensures
            final(self).well_formed(),
            (*final(self), r) == old(self).next(response),
    {
        let mut phase = ScanSizePhase::Finished;
        std::mem::swap(&mut phase, &mut self.phase);
        let next_index = self.index + 1;
        match phase {
            ScanSizePhase::QueryingFile(mut query) => match query.resume(response) {
                MachineStep::Perform(request) => {
                    self.phase = ScanSizePhase::QueryingFile(query);
                    MachineStep::Perform(request)
                },
                MachineStep::Finished(Err(e)) => {
                    let error = match e {
                        FileSizeError::NotFound { path } => DirectorySizeScanError::ScanEntryNoLongerExists { path },
                        FileSizeError::NotAFile { path } => DirectorySizeScanError::ScanEntryNoLongerExists { path },
                        FileSizeError::UnableToAccessFile { file_path, error } => {
                            DirectorySizeScanError::UnableToAccessFile { file_path, error }
                        },
                        FileSizeError::OtherIoError { error } => DirectorySizeScanError::OtherIoError { error },
                    };
                    MachineStep::Finished(Err(error))
                },
                MachineStep::Finished(Ok(size)) => {
                    self.total = self.total.saturating_add(size);
                    self.go_to_file(next_index)
                },
            },
            ScanSizePhase::AwaitDirectoryMetadata => match response {
                FsResponse::Metadata(Ok(meta)) => {
                    self.total = self.total.saturating_add(meta.len);
                    self.go_to_directory(next_index)
                },
                _ => MachineStep::Finished(Err(DirectorySizeScanError::ScanEntryNoLongerExists {
                    path: self.directories[self.index].clone(),
                })),
            },
            ScanSizePhase::Finished => MachineStep::Finished(Ok(self.total)),
        }
    }
}

impl DirectoryScan {
    /// Starts summing the sizes of the scanned files and directories, in bytes.
    pub fn total_size_in_bytes(&self) -> (r: (ScanSizeQuery, MachineStep<Result<u64, DirectorySizeScanError>>))
        ensures
            r.0.well_formed(),
            (r.0, r.1) == (ScanSizeQuery {
                files: r.0.files,
                directories: r.0.directories,
                index: 0,
                total: 0,
                phase: ScanSizePhase::Finished,
            }).at_file(0),
            r.0.files@ == self.scanned_files(),
            r.0.directories@ == self.scanned_directories(),
    {
        let mut query = ScanSizeQuery {
            files: self.files.clone(),
            directories: self.directories.clone(),
            index: 0,
            total: 0,
            phase: ScanSizePhase::Finished,
        };
        let step = query.go_to_file(0);
        (query, step)
    }
}

} // verus!
