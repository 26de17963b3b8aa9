//! Breadth-first directory scanning, directory emptiness checks and directory sizes.
use vstd::prelude::*;

use std::collections::VecDeque;

use crate::error::{DirectoryEmptinessScanError, DirectoryScanError, DirectorySizeScanError};
use crate::path::{paths_are_equal, paths_equal};
use crate::requests::{DirectoryEntryInfo, EntryMetadata, EntryType, FsRequest, FsResponse, IoFailure, MachineStep};

verus! {

/// The maximum depth of a directory scan.
#[derive(Clone, Copy, PartialEq, Eq, Debug, Hash, Structural)]
pub enum DirectoryScanDepthLimit {
    /// No scan depth limit.
    Unlimited,
    /// Scan depth is limited to `maximum_depth`, where the value contains the maximum depth
    /// of the subdirectory being scanned (`0`: only the direct contents of the base directory).
    Limited {
        /// Maximum scan depth.
        maximum_depth: usize,
    },
}

/// Options that influence a directory scan.
#[derive(Clone, Copy, PartialEq, Eq, Debug, Structural)]
pub struct DirectoryScanOptionsV2 {
    /// Whether the scan yields the base directory as an entry.
    pub yield_base_directory: bool,
    /// The maximum directory depth to scan.
    pub maximum_scan_depth: DirectoryScanDepthLimit,
    /// Whether symbolic links inside the scanned tree are followed.
    pub follow_symbolic_links: bool,
    /// Whether a symbolic link at the base directory path is followed.
    pub follow_base_directory_symbolic_link: bool,
}

impl DirectoryScanOptionsV2 {
    /// Whether the scan keeps track of the ancestors of the directory it reads, to detect
    /// symbolic link cycles (only needed when symbolic links are followed).
    pub open spec fn tracks_ancestors(self) -> bool {
        self.follow_symbolic_links
    }

    /// Whether the scan keeps track of the ancestors of the directory it reads.
    pub fn should_track_ancestors(&self) -> (r: bool)
        ensures
            r == self.tracks_ancestors(),
    {
        self.follow_symbolic_links
    }
}

impl Default for DirectoryScanOptionsV2 {
    /// The base directory is yielded, there is no depth limit and no link is followed.
    fn default() -> (r: Self)
        ensures
            r.yield_base_directory,
            r.maximum_scan_depth == DirectoryScanDepthLimit::Unlimited,
            !r.follow_symbolic_links,
            !r.follow_base_directory_symbolic_link,
    {
        Self {
            yield_base_directory: true,
            maximum_scan_depth: DirectoryScanDepthLimit::Unlimited,
            follow_symbolic_links: false,
            follow_base_directory_symbolic_link: false,
        }
    }
}

/// The depth of a scanned entry.
#[derive(Clone, Copy, PartialEq, Eq, Debug, Structural)]
pub enum ScanEntryDepth {
    /// The base directory itself.
    BaseDirectory,
    /// An entry inside the base directory; `0` is directly inside it.
    AtDepth {
        /// The depth.
        depth: usize,
    },
}

/// The depth of the contents of a directory at `depth`.
pub open spec fn deeper(depth: ScanEntryDepth) -> ScanEntryDepth {
    match depth {
        ScanEntryDepth::BaseDirectory => ScanEntryDepth::AtDepth { depth: 0 },
        ScanEntryDepth::AtDepth { depth } => ScanEntryDepth::AtDepth { depth: depth.saturating_add(1) },
    }
}

impl ScanEntryDepth {
    /// The depth of the contents of a directory at this depth (saturated at `usize::MAX`).
    pub fn plus_one_level(self) -> (r: Self)
        ensures
            r == deeper(self),
    {
        match self {
            ScanEntryDepth::BaseDirectory => ScanEntryDepth::AtDepth { depth: 0 },
            ScanEntryDepth::AtDepth { depth } => ScanEntryDepth::AtDepth { depth: depth.saturating_add(1) },
        }
    }
}

/// A scanned filesystem entry.
#[derive(Debug)]
pub struct ScanEntry {
    /// The path of the entry.
    pub path: String,
    /// The metadata of the entry.
    pub metadata: EntryMetadata,
    /// The depth of the entry.
    pub depth: ScanEntryDepth,
}

impl ScanEntry {
    /// The depth of the entry.
    pub fn depth(&self) -> (r: &ScanEntryDepth)
        ensures
            *r == self.depth,
    {
        &self.depth
    }

    /// The path of the entry.
    pub fn path(&self) -> (r: &String)
        ensures
            *r == self.path,
    {
        &self.path
    }

    /// The metadata of the entry.
    pub fn metadata(&self) -> (r: &EntryMetadata)
        ensures
            *r == self.metadata,
    {
        &self.metadata
    }

    /// The path of the entry, consuming it.
    pub fn into_path(self) -> (r: String)
        ensures
            r == self.path,
    {
        self.path
    }

    /// The metadata of the entry, consuming it.
    pub fn into_metadata(self) -> (r: EntryMetadata)
        ensures
            r == self.metadata,
    {
        self.metadata
    }

    /// The path and the metadata of the entry, consuming it.
    pub fn into_path_and_metadata(self) -> (r: (String, EntryMetadata))
        ensures
            r == (self.path, self.metadata),
    {
        (self.path, self.metadata)
    }
}

/// A directory scanner, configured with a base directory and options.
#[derive(Debug)]
pub struct DirectoryScanner {
    /// The base directory of the scan.
    pub base_path: String,
    /// The options of the scan.
    pub options: DirectoryScanOptionsV2,
}

/// A directory whose listing is being walked through.
#[derive(Debug)]
pub struct OpenDirectory {
    /// The path of the directory.
    pub directory_path: String,
    /// The depth of the directory.
    pub directory_depth: ScanEntryDepth,
    /// The entries of the listing that were not yielded yet, the next one last.
    pub remaining: Vec<Result<DirectoryEntryInfo, IoFailure>>,
}

/// A directory whose listing is being walked through, with its entries as a sequence.
pub struct OpenView {
    /// The path of the directory.
    pub directory_path: String,
    /// The depth of the directory.
    pub directory_depth: ScanEntryDepth,
    /// The entries of the listing that were not yielded yet, the next one last.
    pub remaining: Seq<Result<DirectoryEntryInfo, IoFailure>>,
}

impl View for OpenDirectory {
    type V = OpenView;

    open spec fn view(&self) -> OpenView {
        OpenView { directory_path: self.directory_path, directory_depth: self.directory_depth, remaining: self.remaining@ }
    }
}

/// A directory waiting to be read.
#[derive(Debug)]
pub struct PendingDirectory {
    /// The path of the directory.
    pub directory_path: String,
    /// The depth of the directory.
    pub directory_depth: ScanEntryDepth,
}

/// A directory on the path from the base directory to the directory being read.
#[derive(Debug)]
pub struct Ancestor {
    /// The path of the directory.
    pub path: String,
    /// The depth of the directory.
    pub depth: ScanEntryDepth,
}

/// What a breadth-first scan waits for.
#[derive(Debug)]
pub enum ScanPhase {
    /// Nothing: the next entry is computed on the next advance.
    Idle,
    /// The base directory's own metadata.
    AwaitBaseMetadata,
    /// The destination of the symbolic link at the base directory path.
    AwaitBaseLinkTarget { base_metadata: EntryMetadata },
    /// The metadata of the base directory symbolic link's destination.
    AwaitBaseLinkTargetMetadata { base_metadata: EntryMetadata, destination: String },
    /// The listing of a directory.
    AwaitListing { directory: PendingDirectory, is_base: bool },
    /// The destination of a symbolic link found in the open directory.
    AwaitEntryLinkTarget,
    /// The metadata of a symbolic link's destination.
    AwaitEntryLinkTargetMetadata { resolved: String },
}

/// An item of a scan: an entry, an error, or the end of the scan.
pub type ScanItem = Option<Result<ScanEntry, DirectoryScanError>>;

/// The state of a breadth-first scan, with its queues as sequences.
pub struct DirectoryScanView {
    /// The base directory (the link destination, once a base link was followed).
    pub base_directory: String,
    /// The options of the scan.
    pub options: DirectoryScanOptionsV2,
    /// Whether the base directory was processed.
    pub has_processed_base_directory: bool,
    /// Whether the base directory's listing was read.
    pub has_scanned_base_directory: bool,
    /// Directories waiting to be read, the next one first.
    pub pending: Seq<PendingDirectory>,
    /// The directory whose listing is being walked through.
    pub open: Option<OpenView>,
    /// The ancestors of the directory being read (tracked when links are followed).
    pub ancestors: Seq<Ancestor>,
    /// Whether symbolic link cycles are detected (by tracking ancestors).
    pub detects_cycles: bool,
    /// Whether the scan is over: from then on, it yields nothing.
    pub exhausted: bool,
    /// What the scan waits for.
    pub phase: ScanPhase,
}

/// Whether the contents of a directory entry at `depth` are scanned under `limit`.
pub open spec fn scans_below(limit: DirectoryScanDepthLimit, depth: ScanEntryDepth) -> bool {
    match limit {
        DirectoryScanDepthLimit::Unlimited => true,
        DirectoryScanDepthLimit::Limited { maximum_depth } => match depth {
            ScanEntryDepth::BaseDirectory => true,
            ScanEntryDepth::AtDepth { depth } => depth < maximum_depth,
        },
    }
}

/// Whether `path` is the path of one of `ancestors`.
pub open spec fn is_ancestor(ancestors: Seq<Ancestor>, path: Seq<char>) -> bool {
    exists|i: int| 0 <= i < ancestors.len() && paths_equal(#[trigger] ancestors[i].path@, path)
}

impl DirectoryScanView {
    /// The scan waiting in `phase`.
    pub open spec fn waiting(self, phase: ScanPhase) -> DirectoryScanView {
        DirectoryScanView { phase, ..self }
    }

    /// The scan, having produced `item`; once it produced nothing, it is over.
    pub open spec fn produce(self, item: ScanItem) -> (DirectoryScanView, MachineStep<ScanItem>) {
        (
            DirectoryScanView { phase: ScanPhase::Idle, exhausted: self.exhausted || item is None, ..self },
            MachineStep::Finished(item),
        )
    }

    /// The scan, having produced its last item `item`.
    pub open spec fn produce_last(self, item: ScanItem) -> (DirectoryScanView, MachineStep<ScanItem>) {
        DirectoryScanView { exhausted: true, ..self }.produce(item)
    }

    /// The scan, having failed to read the open directory's entry.
    pub open spec fn entry_error(self, error: std::io::Error) -> (DirectoryScanView, MachineStep<ScanItem>) {
        self.produce(Some(Err(DirectoryScanError::UnableToReadDirectoryEntry {
            directory_path: self.open->Some_0.directory_path,
            error,
        })))
    }

    /// The scan, opening the next directory to read.
    pub open spec fn open_next(self) -> (DirectoryScanView, MachineStep<ScanItem>) {
        if !self.has_scanned_base_directory {
            (
                self.waiting(ScanPhase::AwaitListing {
                    directory: PendingDirectory { directory_path: self.base_directory, directory_depth: ScanEntryDepth::BaseDirectory },
                    is_base: true,
                }),
                MachineStep::Perform(FsRequest::ReadDirectory { path: self.base_directory }),
            )
        } else if self.pending.len() == 0 {
            self.produce(None)
        } else {
            (
                DirectoryScanView {
                    pending: self.pending.drop_first(),
                    phase: ScanPhase::AwaitListing { directory: self.pending[0], is_base: false },
                    ..self
                },
                MachineStep::Perform(FsRequest::ReadDirectory { path: self.pending[0].directory_path }),
            )
        }
    }

    /// The scan, yielding the entry at `path` with `metadata` from the open directory.
    pub open spec fn emit(self, path: String, metadata: EntryMetadata) -> (DirectoryScanView, MachineStep<ScanItem>) {
        let depth = deeper(self.open->Some_0.directory_depth);
        let s = if metadata.entry_type == EntryType::Directory && scans_below(self.options.maximum_scan_depth, depth) {
            DirectoryScanView { pending: self.pending.push(PendingDirectory { directory_path: path, directory_depth: depth }), ..self }
        } else {
            self
        };
        s.produce(Some(Ok(ScanEntry { path, metadata, depth })))
    }

    /// The scan, moving on from where it stands without a response.
    pub open spec fn continue_scan(self) -> (DirectoryScanView, MachineStep<ScanItem>) {
        match self.open {
            None => self.open_next(),
            Some(o) => if o.remaining.len() == 0 {
                DirectoryScanView { open: None, ..self }.open_next()
            } else {
                let s = DirectoryScanView { open: Some(OpenView { remaining: o.remaining.drop_last(), ..o }), ..self };
                match o.remaining.last() {
                    Err(f) => s.entry_error(f.error),
                    Ok(info) => match info.metadata {
                        Err(f) => s.entry_error(f.error),
                        Ok(m) => if self.options.follow_symbolic_links && m.entry_type == EntryType::Symlink {
                            (s.waiting(ScanPhase::AwaitEntryLinkTarget), MachineStep::Perform(FsRequest::ReadLink { path: info.path }))
                        } else {
                            s.emit(info.path, m)
                        },
                    },
                }
            },
        }
    }

    /// The scan, asked for its next item.
    pub open spec fn advance(self) -> (DirectoryScanView, MachineStep<ScanItem>) {
        if self.exhausted {
            self.produce(None)
        } else if !self.has_processed_base_directory {
            (
                DirectoryScanView { has_processed_base_directory: true, phase: ScanPhase::AwaitBaseMetadata, ..self },
                MachineStep::Perform(FsRequest::SymlinkMetadata { path: self.base_directory }),
            )
        } else {
            self.continue_scan()
        }
    }

    /// The error for the base directory that could not be read.
    pub open spec fn base_error(self, error: std::io::Error) -> (DirectoryScanView, MachineStep<ScanItem>) {
        self.produce(Some(Err(DirectoryScanError::UnableToReadDirectory { directory_path: self.base_directory, error })))
    }

    /// The scan, having read the listing of `directory`.
    pub open spec fn opened(
        self,
        directory: PendingDirectory,
        is_base: bool,
        entries: Vec<Result<DirectoryEntryInfo, IoFailure>>,
    ) -> (DirectoryScanView, MachineStep<ScanItem>) {
        let open = OpenView {
            directory_path: directory.directory_path,
            directory_depth: directory.directory_depth,
            remaining: entries@.reverse(),
        };
        let ancestor = Ancestor { path: directory.directory_path, depth: directory.directory_depth };
        let ancestors = if !(self.detects_cycles && self.options.tracks_ancestors()) {
            self.ancestors
        } else if is_base {
            self.ancestors.push(ancestor)
        } else if self.ancestors.len() > 0 && self.ancestors.last().depth == directory.directory_depth {
            self.ancestors.drop_last().push(ancestor)
        } else {
            self.ancestors.push(ancestor)
        };
        DirectoryScanView {
            open: Some(open),
            ancestors,
            has_scanned_base_directory: self.has_scanned_base_directory || is_base,
            ..self
        }.continue_scan()
    }

    /// The next state and step of the scan, given the response to its pending request.
    pub open spec fn next(self, response: FsResponse) -> (DirectoryScanView, MachineStep<ScanItem>) {
        match (self.phase, response) {
            (ScanPhase::AwaitBaseMetadata, FsResponse::Metadata(m)) => match m {
                Err(f) => self.base_error(f.error),
                Ok(meta) => if meta.entry_type == EntryType::Symlink {
                    if !self.options.follow_base_directory_symbolic_link {
                        if self.options.yield_base_directory {
                            self.produce_last(Some(Ok(ScanEntry {
                                path: self.base_directory,
                                metadata: meta,
                                depth: ScanEntryDepth::BaseDirectory,
                            })))
                        } else {
                            self.produce(None)
                        }
                    } else {
                        (
                            self.waiting(ScanPhase::AwaitBaseLinkTarget { base_metadata: meta }),
                            MachineStep::Perform(FsRequest::ReadLink { path: self.base_directory }),
                        )
                    }
                } else if meta.entry_type != EntryType::Directory {
                    self.produce(Some(Err(DirectoryScanError::NotADirectory { path: self.base_directory })))
                } else if self.options.yield_base_directory {
                    self.produce(Some(Ok(ScanEntry {
                        path: self.base_directory,
                        metadata: meta,
                        depth: ScanEntryDepth::BaseDirectory,
                    })))
                } else {
                    self.continue_scan()
                },
            },
            (ScanPhase::AwaitBaseLinkTarget { base_metadata }, FsResponse::Path(p)) => match p {
                Err(f) => self.base_error(f.error),
                Ok(destination) => (
                    self.waiting(ScanPhase::AwaitBaseLinkTargetMetadata { base_metadata, destination }),
                    MachineStep::Perform(FsRequest::SymlinkMetadata { path: destination }),
                ),
            },
            (ScanPhase::AwaitBaseLinkTargetMetadata { base_metadata, destination }, FsResponse::Metadata(m)) => match m {
                Err(f) => self.base_error(f.error),
                Ok(meta) => if meta.entry_type != EntryType::Directory {
                    self.produce(Some(Err(DirectoryScanError::NotADirectory { path: self.base_directory })))
                } else if self.options.yield_base_directory {
                    DirectoryScanView { base_directory: destination, ..self }.produce(Some(Ok(ScanEntry {
                        path: destination,
                        metadata: base_metadata,
                        depth: ScanEntryDepth::BaseDirectory,
                    })))
                } else {
                    DirectoryScanView { base_directory: destination, ..self }.continue_scan()
                },
            },
            (ScanPhase::AwaitListing { directory, is_base }, FsResponse::Listing(l)) => match l {
                Err(f) => self.produce(Some(Err(DirectoryScanError::UnableToReadDirectory {
                    directory_path: directory.directory_path,
                    error: f.error,
                }))),
                Ok(entries) => self.opened(directory, is_base, entries),
            },
            (ScanPhase::AwaitEntryLinkTarget, FsResponse::Path(p)) => match p {
                Err(f) => self.entry_error(f.error),
                Ok(resolved) => (
                    self.waiting(ScanPhase::AwaitEntryLinkTargetMetadata { resolved }),
                    MachineStep::Perform(FsRequest::SymlinkMetadata { path: resolved }),
                ),
            },
            (ScanPhase::AwaitEntryLinkTargetMetadata { resolved }, FsResponse::Metadata(m)) => match m {
                Err(f) => self.entry_error(f.error),
                Ok(meta) => if meta.entry_type == EntryType::Directory && is_ancestor(self.ancestors, resolved@) {
                    self.produce(Some(Err(DirectoryScanError::SymlinkCycleEncountered { directory_path: resolved })))
                } else {
                    self.emit(resolved, meta)
                },
            },
            _ => self.produce(None),
        }
    }
}

/// A breadth-first scan of a directory tree, yielding one entry at a time.
///
/// Directories are read level by level, in the order they were found; with links followed,
/// a symbolic link that leads back to a directory being read is reported as a cycle.
#[derive(Debug)]
pub struct BreadthFirstDirectoryIter {
    base_directory: String,
    options: DirectoryScanOptionsV2,
    has_processed_base_directory: bool,
    has_scanned_base_directory: bool,
    pending_directory_stack: VecDeque<PendingDirectory>,
    currently_open_directory: Option<OpenDirectory>,
    current_directory_ancestors: Vec<Ancestor>,
    detects_cycles: bool,
    exhausted: bool,
    phase: ScanPhase,
}

impl BreadthFirstDirectoryIter {
    /// The state of the scan.
    pub closed spec fn view_state(&self) -> DirectoryScanView {
        DirectoryScanView {
            base_directory: self.base_directory,
            options: self.options,
            has_processed_base_directory: self.has_processed_base_directory,
            has_scanned_base_directory: self.has_scanned_base_directory,
            pending: self.pending_directory_stack@,
            open: match self.currently_open_directory {
                Some(o) => Some(o@),
                None => None,
            },
            ancestors: self.current_directory_ancestors@,
            detects_cycles: self.detects_cycles,
            exhausted: self.exhausted,
            phase: self.phase,
        }
    }

    /// Whether the state is consistent.
    pub open spec fn well_formed(&self) -> bool {
        let v = self.view_state();
        (v.phase is AwaitEntryLinkTarget || v.phase is AwaitEntryLinkTargetMetadata) ==> v.open is Some
    }

    /// Whether `response` can resume this scan.
    pub open spec fn accepts(&self, response: FsResponse) -> bool {
        match self.view_state().phase {
            ScanPhase::Idle => false,
            ScanPhase::AwaitBaseMetadata => response is Metadata,
            ScanPhase::AwaitBaseLinkTarget { .. } => response is Path,
            ScanPhase::AwaitBaseLinkTargetMetadata { .. } => response is Metadata,
            ScanPhase::AwaitListing { .. } => response is Listing,
            ScanPhase::AwaitEntryLinkTarget => response is Path,
            ScanPhase::AwaitEntryLinkTargetMetadata { .. } => response is Metadata,
        }
    }

    /// A scan of `base_directory` with `options`, before it started.
    pub open spec fn initial(base_directory: String, options: DirectoryScanOptionsV2) -> DirectoryScanView {
        DirectoryScanView {
            base_directory,
            options,
            has_processed_base_directory: false,
            has_scanned_base_directory: false,
            pending: Seq::empty(),
            open: None,
            ancestors: Seq::empty(),
            detects_cycles: true,
            exhausted: false,
            phase: ScanPhase::Idle,
        }
    }

    /// A scan of `base_directory` with `options`.
    pub fn new(base_directory: String, options: DirectoryScanOptionsV2) -> (r: Self)
        ensures
            r.well_formed(),
            r.view_state() == Self::initial(base_directory, options),
    {
        Self::configured(base_directory, options, true)
    }

    /// A scan of `base_directory` with `options`, detecting symbolic link cycles or not.
    fn configured(base_directory: String, options: DirectoryScanOptionsV2, detects_cycles: bool) -> (r: Self)
        ensures
            r.well_formed(),
            r.view_state() == (DirectoryScanView { detects_cycles, ..Self::initial(base_directory, options) }),
    {
        let r = BreadthFirstDirectoryIter {
            base_directory,
            options,
            has_processed_base_directory: false,
            has_scanned_base_directory: false,
            pending_directory_stack: VecDeque::new(),
            currently_open_directory: None,
            current_directory_ancestors: Vec::new(),
            detects_cycles,
            exhausted: false,
            phase: ScanPhase::Idle,
        };
        proof {
            assert(r.view_state().pending =~= Seq::empty());
            assert(r.view_state().ancestors =~= Seq::empty());
        }
        r
    }

    /// Produces `item`.
    fn produce(&mut self, item: ScanItem) -> (r: MachineStep<ScanItem>)
        ensures
            (final(self).view_state(), r) == old(self).view_state().produce(item),
    {
        if item.is_none() {
            self.exhausted = true;
        }
        self.phase = ScanPhase::Idle;
        MachineStep::Finished(item)
    }

    /// Produces the error for an unreadable entry of the open directory.
    fn produce_entry_error(&mut self, error: std::io::Error) -> (r: MachineStep<ScanItem>)
        requires
            old(self).currently_open_directory is Some,
        ensures
            (final(self).view_state(), r) == old(self).view_state().entry_error(error),
    {
        let directory_path = match &self.currently_open_directory {
            Some(o) => o.directory_path.clone(),
            None => String::new(),
        };
        self.produce(Some(Err(DirectoryScanError::UnableToReadDirectoryEntry { directory_path, error })))
    }

    /// Opens the next directory to read.
    fn open_next_directory(&mut self) -> (r: MachineStep<ScanItem>)
        ensures
            (final(self).view_state(), r) == old(self).view_state().open_next(),
    {
        if !self.has_scanned_base_directory {
            let path = self.base_directory.clone();
            self.phase = ScanPhase::AwaitListing {
                directory: PendingDirectory { directory_path: path.clone(), directory_depth: ScanEntryDepth::BaseDirectory },
                is_base: true,
            };
            MachineStep::Perform(FsRequest::ReadDirectory { path })
        } else {
            match self.pending_directory_stack.pop_front() {
                None => self.produce(None),
                Some(directory) => {
                    proof {
                        assert(self.pending_directory_stack@ =~= old(self).pending_directory_stack@.drop_first());
                    }
                    let path = directory.directory_path.clone();
                    self.phase = ScanPhase::AwaitListing { directory, is_base: false };
                    MachineStep::Perform(FsRequest::ReadDirectory { path })
                },
            }
        }
    }

    /// Yields the entry at `path` with `metadata` from the open directory.
    fn emit_entry(&mut self, path: String, metadata: EntryMetadata) -> (r: MachineStep<ScanItem>)
        requires
            old(self).currently_open_directory is Some,
        ensures
            (final(self).view_state(), r) == old(self).view_state().emit(path, metadata),
    {
        let parent_depth = match &self.currently_open_directory {
            Some(o) => o.directory_depth,
            None => ScanEntryDepth::BaseDirectory,
        };
        let depth = parent_depth.plus_one_level();
        let below = match self.options.maximum_scan_depth {
            DirectoryScanDepthLimit::Unlimited => true,
            DirectoryScanDepthLimit::Limited { maximum_depth } => match depth {
                ScanEntryDepth::BaseDirectory => true,
                ScanEntryDepth::AtDepth { depth } => depth < maximum_depth,
            },
        };
        if metadata.entry_type == EntryType::Directory && below {
            self.pending_directory_stack.push_back(PendingDirectory { directory_path: path.clone(), directory_depth: depth });
        }
        self.produce(Some(Ok(ScanEntry { path, metadata, depth })))
    }

    /// Moves on from where the scan stands, without a response.
    fn continue_scan(&mut self) -> (r: MachineStep<ScanItem>)
        ensures
            final(self).well_formed(),
            (final(self).view_state(), r) == old(self).view_state().continue_scan(),
    {
        let mut open = None;
        std::mem::swap(&mut open, &mut self.currently_open_directory);
        match open {
            None => self.open_next_directory(),
            Some(mut o) => {
                let ghost before = o@;
                match o.remaining.pop() {
                    None => self.open_next_directory(),
                    Some(entry) => {
                        proof {
                            assert(o@.remaining =~= before.remaining.drop_last());
                        }
                        self.currently_open_directory = Some(o);
                        match entry {
                            Err(f) => self.produce_entry_error(f.error),
                            Ok(info) => match info.metadata {
                                Err(f) => self.produce_entry_error(f.error),
                                Ok(m) => if self.options.follow_symbolic_links && m.entry_type == EntryType::Symlink {
                                    self.phase = ScanPhase::AwaitEntryLinkTarget;
                                    MachineStep::Perform(FsRequest::ReadLink { path: info.path })
                                } else {
                                    self.emit_entry(info.path, m)
                                },
                            },
                        }
                    },
                }
            },
        }
    }

    /// The listing `entries`, the first entry last.
    fn reversed(entries: Vec<Result<DirectoryEntryInfo, IoFailure>>) -> (r: Vec<Result<DirectoryEntryInfo, IoFailure>>)
        ensures
            r@ == entries@.reverse(),
    {
        let ghost original = entries@;
        let mut entries = entries;
        let mut reversed: Vec<Result<DirectoryEntryInfo, IoFailure>> = Vec::new();
        while entries.len() > 0
            invariant
                original.len() == entries@.len() + reversed@.len(),
                entries@ =~= original.take(entries.len() as int),
                forall|i: int| 0 <= i < reversed.len() ==> #[trigger] reversed@[i] == original[original.len() - 1 - i],
            decreases entries.len(),
        {
            let e = entries.pop().unwrap();
            reversed.push(e);
        }
        proof {
            assert(reversed@ =~= original.reverse());
        }
        reversed
    }

    /// Whether `path` is the path of one of the ancestors of the directory being read.
    fn has_ancestor(&self, path: &String) -> (r: bool)
        ensures
            r == is_ancestor(self.view_state().ancestors, path@),
    {
        let mut i: usize = 0;
        while i < self.current_directory_ancestors.len()
            invariant
                i <= self.current_directory_ancestors@.len(),
                forall|j: int| 0 <= j < i ==> !paths_equal(#[trigger] self.current_directory_ancestors@[j].path@, path@),
            decreases self.current_directory_ancestors.len() - i,
        {
            if paths_are_equal(self.current_directory_ancestors[i].path.as_str(), path.as_str()) {
                return true;
            }
            i = i + 1;
        }
        false
    }

    /// Opens the listing `entries` of `directory`.
    fn open_listing(
        &mut self,
        directory: PendingDirectory,
        is_base: bool,
        entries: Vec<Result<DirectoryEntryInfo, IoFailure>>,
    ) -> (r: MachineStep<ScanItem>)
        ensures
            final(self).well_formed(),
            (final(self).view_state(), r) == old(self).view_state().opened(directory, is_base, entries),
    {
        let ghost listed = entries@;
        let remaining = Self::reversed(entries);
        if self.detects_cycles && self.options.should_track_ancestors() {
            let ancestor = Ancestor { path: directory.directory_path.clone(), depth: directory.directory_depth };
            if is_base {
                self.current_directory_ancestors.push(ancestor);
            } else {
                let n = self.current_directory_ancestors.len();
                if n > 0 && self.current_directory_ancestors[n - 1].depth == directory.directory_depth {
                    self.current_directory_ancestors.pop();
                    proof {
                        assert(self.current_directory_ancestors@ =~= old(self).current_directory_ancestors@.drop_last());
                    }
                }
                self.current_directory_ancestors.push(ancestor);
            }
        }
        if is_base {
            self.has_scanned_base_directory = true;
        }
        self.currently_open_directory = Some(OpenDirectory {
            directory_path: directory.directory_path,
            directory_depth: directory.directory_depth,
            remaining,
        });
        self.continue_scan()
    }

    /// Asks the scan for its next item: either a request to perform, or the item
    /// (`None` once the scan is over).
    pub fn advance(&mut self) -> (r: MachineStep<ScanItem>)
        requires
            old(self).view_state().phase is Idle,
        ensures
            final(self).well_formed(),
            (final(self).view_state(), r) == old(self).view_state().advance(),
    {
        if self.exhausted {
            self.produce(None)
        } else if !self.has_processed_base_directory {
            self.has_processed_base_directory = true;
            self.phase = ScanPhase::AwaitBaseMetadata;
            MachineStep::Perform(FsRequest::SymlinkMetadata { path: self.base_directory.clone() })
        } else {
            self.continue_scan()
        }
    }

    /// Whether `response` can resume this scan.
    pub fn can_accept(&self, response: &FsResponse) -> (r: bool)
        ensures
            r == self.accepts(*response),
    {
        match (&self.phase, response) {
            (ScanPhase::AwaitBaseMetadata, FsResponse::Metadata(_)) => true,
            (ScanPhase::AwaitBaseLinkTarget { .. }, FsResponse::Path(_)) => true,
            (ScanPhase::AwaitBaseLinkTargetMetadata { .. }, FsResponse::Metadata(_)) => true,
            (ScanPhase::AwaitListing { .. }, FsResponse::Listing(_)) => true,
            (ScanPhase::AwaitEntryLinkTarget, FsResponse::Path(_)) => true,
            (ScanPhase::AwaitEntryLinkTargetMetadata { .. }, FsResponse::Metadata(_)) => true,
            _ => false,
        }
    }

    /// Whether the scan waits for nothing, so that it can be advanced.
    pub fn is_idle(&self) -> (r: bool)
        ensures
            r == (self.view_state().phase is Idle),
    {
        match self.phase {
            ScanPhase::Idle => true,
            _ => false,
        }
    }

    /// Produces the error for the base directory that could not be read.
    fn produce_base_error(&mut self, error: std::io::Error) -> (r: MachineStep<ScanItem>)
        ensures
            (final(self).view_state(), r) == old(self).view_state().base_error(error),
    {
        let directory_path = self.base_directory.clone();
        self.produce(Some(Err(DirectoryScanError::UnableToReadDirectory { directory_path, error })))
    }

    /// Resumes the scan with the response to its pending request.
    pub fn resume(&mut self, response: FsResponse) -> (r: MachineStep<ScanItem>)
        requires
            old(self).well_formed(),
            old(self).accepts(response),
        ensures
            final(self).well_formed(),
            (final(self).view_state(), r) == old(self).view_state().next(response),
    {
        let mut phase = ScanPhase::Idle;
        std::mem::swap(&mut phase, &mut self.phase);
        match (phase, response) {
            (ScanPhase::AwaitBaseMetadata, FsResponse::Metadata(m)) => match m {
                Err(f) => self.produce_base_error(f.error),
                Ok(meta) => if meta.entry_type == EntryType::Symlink {
                    if !self.options.follow_base_directory_symbolic_link {
                        if self.options.yield_base_directory {
                            self.exhausted = true;
                            let path = self.base_directory.clone();
                            self.produce(Some(Ok(ScanEntry { path, metadata: meta, depth: ScanEntryDepth::BaseDirectory })))
                        } else {
                            self.produce(None)
                        }
                    } else {
                        self.phase = ScanPhase::AwaitBaseLinkTarget { base_metadata: meta };
                        MachineStep::Perform(FsRequest::ReadLink { path: self.base_directory.clone() })
                    }
                } else if meta.entry_type != EntryType::Directory {
                    let path = self.base_directory.clone();
                    self.produce(Some(Err(DirectoryScanError::NotADirectory { path })))
                } else if self.options.yield_base_directory {
                    let path = self.base_directory.clone();
                    self.produce(Some(Ok(ScanEntry { path, metadata: meta, depth: ScanEntryDepth::BaseDirectory })))
                } else {
                    self.continue_scan()
                },
            },
            (ScanPhase::AwaitBaseLinkTarget { base_metadata }, FsResponse::Path(p)) => match p {
                Err(f) => self.produce_base_error(f.error),
                Ok(destination) => {
                    let request = FsRequest::SymlinkMetadata { path: destination.clone() };
                    self.phase = ScanPhase::AwaitBaseLinkTargetMetadata { base_metadata, destination };
                    MachineStep::Perform(request)
                },
            },
            (ScanPhase::AwaitBaseLinkTargetMetadata { base_metadata, destination }, FsResponse::Metadata(m)) => match m {
                Err(f) => self.produce_base_error(f.error),
                Ok(meta) => if meta.entry_type != EntryType::Directory {
                    let path = self.base_directory.clone();
                    self.produce(Some(Err(DirectoryScanError::NotADirectory { path })))
                } else if self.options.yield_base_directory {
                    self.base_directory = destination.clone();
                    self.produce(Some(Ok(ScanEntry {
                        path: destination,
                        metadata: base_metadata,
                        depth: ScanEntryDepth::BaseDirectory,
                    })))
                } else {
                    self.base_directory = destination;
                    self.continue_scan()
                },
            },
            (ScanPhase::AwaitListing { directory, is_base }, FsResponse::Listing(l)) => match l {
                Err(f) => self.produce(Some(Err(DirectoryScanError::UnableToReadDirectory {
                    directory_path: directory.directory_path,
                    error: f.error,
                }))),
                Ok(entries) => self.open_listing(directory, is_base, entries),
            },
            (ScanPhase::AwaitEntryLinkTarget, FsResponse::Path(p)) => match p {
                Err(f) => self.produce_entry_error(f.error),
                Ok(resolved) => {
                    let request = FsRequest::SymlinkMetadata { path: resolved.clone() };
                    self.phase = ScanPhase::AwaitEntryLinkTargetMetadata { resolved };
                    MachineStep::Perform(request)
                },
            },
            (ScanPhase::AwaitEntryLinkTargetMetadata { resolved }, FsResponse::Metadata(m)) => match m {
                Err(f) => self.produce_entry_error(f.error),
                Ok(meta) => if meta.entry_type == EntryType::Directory && self.has_ancestor(&resolved) {
                    self.produce(Some(Err(DirectoryScanError::SymlinkCycleEncountered { directory_path: resolved })))
                } else {
                    self.emit_entry(resolved, meta)
                },
            },
            (_, _) => self.produce(None),
        }
    }
}

impl DirectoryScanner {
    /// A scanner of `base_directory_path` with `options`.
    pub fn new(base_directory_path: String, options: DirectoryScanOptionsV2) -> (r: Self)
        ensures
            r.base_path == base_directory_path,
            r.options == options,
    {
        DirectoryScanner { base_path: base_directory_path, options }
    }

    /// The breadth-first scan of this scanner's base directory.
    pub fn into_iter(self) -> (r: BreadthFirstDirectoryIter)
        ensures
            r.well_formed(),
            r.view_state() == BreadthFirstDirectoryIter::initial(self.base_path, self.options),
    {
        BreadthFirstDirectoryIter::new(self.base_path, self.options)
    }
}

/// A breadth-first scan of a directory tree, one directory after the other, that does not
/// look out for symbolic link cycles.
///
/// It walks the tree as [`BreadthFirstDirectoryIter`] does, but keeps no record of the
/// directories above the one being read: with links followed, a link that leads back up
/// the tree is entered again (a depth limit bounds such a scan).
#[derive(Debug)]
pub struct DirectoryScannerPerDirectoryIter {
    scan: BreadthFirstDirectoryIter,
}

impl DirectoryScannerPerDirectoryIter {
    /// The state of the scan.
    pub closed spec fn view_state(&self) -> DirectoryScanView {
        self.scan.view_state()
    }

    /// Whether the state is consistent.
    pub open spec fn well_formed(&self) -> bool {
        let v = self.view_state();
        (v.phase is AwaitEntryLinkTarget || v.phase is AwaitEntryLinkTargetMetadata) ==> v.open is Some
    }

    /// Whether `response` can resume this scan.
    pub open spec fn accepts(&self, response: FsResponse) -> bool {
        match self.view_state().phase {
            ScanPhase::Idle => false,
            ScanPhase::AwaitBaseMetadata => response is Metadata,
            ScanPhase::AwaitBaseLinkTarget { .. } => response is Path,
            ScanPhase::AwaitBaseLinkTargetMetadata { .. } => response is Metadata,
            ScanPhase::AwaitListing { .. } => response is Listing,
            ScanPhase::AwaitEntryLinkTarget => response is Path,
            ScanPhase::AwaitEntryLinkTargetMetadata { .. } => response is Metadata,
        }
    }

    /// A scan of `base_directory` with `options`, before it started.
    pub open spec fn initial(base_directory: String, options: DirectoryScanOptionsV2) -> DirectoryScanView {
        DirectoryScanView { detects_cycles: false, ..BreadthFirstDirectoryIter::initial(base_directory, options) }
    }

    /// A scan of `base_directory` with `options`.
    pub fn new(base_directory: String, options: DirectoryScanOptionsV2) -> (r: Self)
        ensures
            r.well_formed(),
            r.view_state() == Self::initial(base_directory, options),
    {
        DirectoryScannerPerDirectoryIter { scan: BreadthFirstDirectoryIter::configured(base_directory, options, false) }
    }

    /// Asks the scan for its next item: either a request to perform, or the item
    /// (`None` once the scan is over).
    pub fn advance(&mut self) -> (r: MachineStep<ScanItem>)
        requires
            old(self).view_state().phase is Idle,
        ensures
            final(self).well_formed(),
            (final(self).view_state(), r) == old(self).view_state().advance(),
    {
        self.scan.advance()
    }

    /// Whether `response` can resume this scan.
    pub fn can_accept(&self, response: &FsResponse) -> (r: bool)
        ensures
            r == self.accepts(*response),
    {
        self.scan.can_accept(response)
    }

    /// Whether the scan waits for nothing, so that it can be advanced.
    pub fn is_idle(&self) -> (r: bool)
        ensures
            r == (self.view_state().phase is Idle),
    {
        self.scan.is_idle()
    }

    /// Resumes the scan with the response to its pending request.
    pub fn resume(&mut self, response: FsResponse) -> (r: MachineStep<ScanItem>)
        requires
            old(self).well_formed(),
            old(self).accepts(response),
        ensures
            final(self).well_formed(),
            (final(self).view_state(), r) == old(self).view_state().next(response),
    {
        self.scan.resume(response)
    }
}

/// Where a directory emptiness check stands.
#[derive(Clone, Copy, PartialEq, Eq, Debug, Structural)]
pub enum EmptinessCheckPhase {
    /// Waiting for the metadata of what the path leads to.
    AwaitMetadata,
    /// Waiting for the first entry of the directory.
    AwaitFirstEntry,
    /// The check has finished.
    Finished,
}

/// Checks whether a directory (or the directory a symbolic link leads to) is empty.
#[derive(Debug)]
pub struct DirectoryEmptinessCheck {
    /// The path of the directory.
    pub directory_path: String,
    /// Where the check stands.
    pub phase: EmptinessCheckPhase,
}

impl DirectoryEmptinessCheck {
    /// Whether `response` can resume this check.
    pub open spec fn accepts(self, response: FsResponse) -> bool {
        match self.phase {
            EmptinessCheckPhase::AwaitMetadata => response is Metadata,
            EmptinessCheckPhase::AwaitFirstEntry => response is FirstEntry,
            EmptinessCheckPhase::Finished => false,
        }
    }

    /// The next state and step of the check, given the response to its pending request.
    pub open spec fn next(self, response: FsResponse) -> (DirectoryEmptinessCheck, MachineStep<Result<bool, DirectoryEmptinessScanError>>) {
        let path = self.directory_path;
        let done = DirectoryEmptinessCheck { phase: EmptinessCheckPhase::Finished, ..self };
        match (self.phase, response) {
            (EmptinessCheckPhase::AwaitMetadata, FsResponse::Metadata(m)) => match m {
                Err(_) => (done, MachineStep::Finished(Err(DirectoryEmptinessScanError::NotFound { path }))),
                Ok(meta) => if meta.entry_type != EntryType::Directory {
                    (done, MachineStep::Finished(Err(DirectoryEmptinessScanError::NotADirectory { path })))
                } else {
                    (
                        DirectoryEmptinessCheck { phase: EmptinessCheckPhase::AwaitFirstEntry, ..self },
                        MachineStep::Perform(FsRequest::ReadFirstDirectoryEntry { path }),
                    )
                },
            },
            (EmptinessCheckPhase::AwaitFirstEntry, FsResponse::FirstEntry(r)) => match r {
                Err(f) => (done, MachineStep::Finished(Err(DirectoryEmptinessScanError::UnableToReadDirectory {
                    directory_path: path,
                    error: f.error,
                }))),
                Ok(None) => (done, MachineStep::Finished(Ok(true))),
                Ok(Some(Err(f))) => (done, MachineStep::Finished(Err(DirectoryEmptinessScanError::UnableToReadDirectoryEntry {
                    directory_path: path,
                    error: f.error,
                }))),
                Ok(Some(Ok(()))) => (done, MachineStep::Finished(Ok(false))),
            },
            _ => (done, MachineStep::Finished(Ok(false))),
        }
    }

    /// Whether `response` can resume this check.
    pub fn can_accept(&self, response: &FsResponse) -> (r: bool)
        ensures
            r == self.accepts(*response),
    {
        match (self.phase, response) {
            (EmptinessCheckPhase::AwaitMetadata, FsResponse::Metadata(_)) => true,
            (EmptinessCheckPhase::AwaitFirstEntry, FsResponse::FirstEntry(_)) => true,
            _ => false,
        }
    }

    /// Resumes the check with the response to its pending request.
    pub fn resume(&mut self, response: FsResponse) -> (r: MachineStep<Result<bool, DirectoryEmptinessScanError>>)
        requires
            old(self).accepts(response),
        ensures
            (*final(self), r) == old(self).next(response),
    {
        let path = self.directory_path.clone();
        let phase = self.phase;
        self.phase = EmptinessCheckPhase::Finished;
        match (phase, response) {
            (EmptinessCheckPhase::AwaitMetadata, FsResponse::Metadata(m)) => match m {
                Err(_) => MachineStep::Finished(Err(DirectoryEmptinessScanError::NotFound { path })),
                Ok(meta) => if meta.entry_type != EntryType::Directory {
                    MachineStep::Finished(Err(DirectoryEmptinessScanError::NotADirectory { path }))
                } else {
                    self.phase = EmptinessCheckPhase::AwaitFirstEntry;
                    MachineStep::Perform(FsRequest::ReadFirstDirectoryEntry { path })
                },
            },
            (EmptinessCheckPhase::AwaitFirstEntry, FsResponse::FirstEntry(r)) => match r {
                Err(f) => MachineStep::Finished(Err(DirectoryEmptinessScanError::UnableToReadDirectory {
                    directory_path: path,
                    error: f.error,
                })),
                Ok(None) => MachineStep::Finished(Ok(true)),
                Ok(Some(Err(f))) => MachineStep::Finished(Err(DirectoryEmptinessScanError::UnableToReadDirectoryEntry {
                    directory_path: path,
                    error: f.error,
                })),
                Ok(Some(Ok(()))) => MachineStep::Finished(Ok(false)),
            },
            _ => MachineStep::Finished(Ok(false)),
        }
    }
}

/// Starts checking whether the directory at `directory_path` (or the directory a symbolic
/// link there leads to) is empty.
pub fn is_directory_empty(directory_path: String) -> (r: (DirectoryEmptinessCheck, FsRequest))
    ensures
        r.0 == (DirectoryEmptinessCheck { directory_path, phase: EmptinessCheckPhase::AwaitMetadata }),
        r.1 == (FsRequest::Metadata { path: directory_path }),
{
    let request = FsRequest::Metadata { path: directory_path.clone() };
    (DirectoryEmptinessCheck { directory_path, phase: EmptinessCheckPhase::AwaitMetadata }, request)
}

} // verus!
