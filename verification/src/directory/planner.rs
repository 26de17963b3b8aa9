//! Planning a directory copy: scanning the source directory and queueing the
//! file copies, directory creations and symbolic link creations that copy it.
use vstd::prelude::*;

use super::common::{join_relative_source_path_onto_destination, rejoined_path};
use super::copy::{
    descends_into, may_descend_into, BrokenSymlinkBehaviour, DirectoryCopyDepthLimit,
    SymlinkBehaviour,
};
use super::validation::{ValidatedDestinationDirectory, ValidatedSourceDirectory};
use crate::error::DirectoryExecutionPlanError;
use crate::path::{join_paths, path_join};
use crate::requests::{
    existence_of, is_inspection, listing_view, DirectoryEntryInfo, EntryMetadata, EntryType, EntryView,
    FsRequest, FsResponse, IoFailure, MachineStep, RequestView,
};

verus! {

/// A queued file copy, symbolic link creation, or directory creation.
#[derive(Debug)]
pub enum QueuedOperation {
    /// Copy a file from `source_file_path` to `destination_file_path`.
    CopyFile {
        /// Where to copy a file from.
        source_file_path: String,
        /// Where to copy a file to.
        destination_file_path: String,
        /// Size of the source file in bytes.
        source_size_bytes: u64,
    },
    /// Create a directory at `destination_directory_path`.
    CreateDirectory {
        /// Directory to create.
        destination_directory_path: String,
        /// Whether to create missing parent directories as well.
        create_parent_directories: bool,
        /// Size of the source directory entry itself in bytes (not of its contents).
        source_size_bytes: u64,
    },
    /// Create a symbolic link at `symlink_path`.
    CreateSymlink {
        /// Where to create the symbolic link.
        symlink_path: String,
        /// Where the symbolic link should point to.
        symlink_destination_path: String,
        /// Size of the symbolic link being "copied".
        source_symlink_size_bytes: u64,
    },
}

/// A queued operation, with its paths as character sequences.
pub enum OperationView {
    /// Copy a file.
    CopyFile { source: Seq<char>, destination: Seq<char>, size: u64 },
    /// Create a directory.
    CreateDirectory { destination: Seq<char>, create_parents: bool, size: u64 },
    /// Create a symbolic link.
    CreateSymlink { link: Seq<char>, target: Seq<char>, size: u64 },
}

impl OperationView {
    /// The path the operation creates or writes.
    pub open spec fn target_path(self) -> Seq<char> {
        match self {
            OperationView::CopyFile { destination, .. } => destination,
            OperationView::CreateDirectory { destination, .. } => destination,
            OperationView::CreateSymlink { link, .. } => link,
        }
    }

    /// The number of source bytes the operation accounts for.
    pub open spec fn size(self) -> u64 {
        match self {
            OperationView::CopyFile { size, .. } => size,
            OperationView::CreateDirectory { size, .. } => size,
            OperationView::CreateSymlink { size, .. } => size,
        }
    }
}

impl View for QueuedOperation {
    type V = OperationView;

    open spec fn view(&self) -> OperationView {
        match *self {
            QueuedOperation::CopyFile { source_file_path, destination_file_path, source_size_bytes } => {
                OperationView::CopyFile {
                    source: source_file_path@,
                    destination: destination_file_path@,
                    size: source_size_bytes,
                }
            },
            QueuedOperation::CreateDirectory {
                destination_directory_path,
                create_parent_directories,
                source_size_bytes,
            } => OperationView::CreateDirectory {
                destination: destination_directory_path@,
                create_parents: create_parent_directories,
                size: source_size_bytes,
            },
            QueuedOperation::CreateSymlink {
                symlink_path,
                symlink_destination_path,
                source_symlink_size_bytes,
            } => OperationView::CreateSymlink {
                link: symlink_path@,
                target: symlink_destination_path@,
                size: source_symlink_size_bytes,
            },
        }
    }
}

/// The views of a sequence of operations.
pub open spec fn operations_view(ops: Seq<QueuedOperation>) -> Seq<OperationView> {
    ops.map_values(|op: QueuedOperation| op@)
}

/// A source directory waiting to be scanned.
#[derive(Debug)]
pub struct PendingDirectoryScan {
    /// The path to read (possibly through symbolic links).
    pub directory_path: String,
    /// The same directory, as a path under the source directory that follows no symbolic links.
    pub directory_path_without_symlink_follows: String,
    /// Depth of the directory under the source directory (`0` for the source directory).
    pub depth: usize,
}

/// A pending directory scan, with its paths as character sequences.
pub struct ScanView {
    /// The path to read.
    pub directory: Seq<char>,
    /// The path under the source directory that follows no symbolic links.
    pub unfollowed: Seq<char>,
    /// Depth of the directory.
    pub depth: usize,
}

impl View for PendingDirectoryScan {
    type V = ScanView;

    open spec fn view(&self) -> ScanView {
        ScanView {
            directory: self.directory_path@,
            unfollowed: self.directory_path_without_symlink_follows@,
            depth: self.depth,
        }
    }
}

/// The views of a sequence of pending scans.
pub open spec fn scans_view(scans: Seq<PendingDirectoryScan>) -> Seq<ScanView> {
    scans.map_values(|s: PendingDirectoryScan| s@)
}

/// The depth one level below `depth`.
pub open spec fn one_level_deeper(depth: usize) -> usize {
    if depth < usize::MAX {
        (depth + 1) as usize
    } else {
        depth
    }
}

/// A symbolic link inside the source directory that is being resolved.
#[derive(Debug)]
pub enum LinkResolution {
    /// Waiting for the link's destination path.
    AwaitTarget { entry_path: String, destination_path: String, unfollowed_path: String },
    /// Waiting for the metadata of the link's destination, to learn whether it exists.
    AwaitTargetExistence {
        entry_path: String,
        destination_path: String,
        unfollowed_path: String,
        target_path: String,
    },
    /// The link is broken; waiting for the link's own metadata.
    AwaitBrokenLinkSize { entry_path: String, destination_path: String, target_path: String },
    /// Waiting for the metadata of the link's destination (links followed).
    AwaitTargetMetadata {
        entry_path: String,
        destination_path: String,
        unfollowed_path: String,
        target_path: String,
    },
}

/// A symbolic link resolution, with its paths as character sequences.
pub enum LinkView {
    AwaitTarget { entry: Seq<char>, destination: Seq<char>, unfollowed: Seq<char> },
    AwaitTargetExistence {
        entry: Seq<char>,
        destination: Seq<char>,
        unfollowed: Seq<char>,
        target: Seq<char>,
    },
    AwaitBrokenLinkSize { entry: Seq<char>, destination: Seq<char>, target: Seq<char> },
    AwaitTargetMetadata {
        entry: Seq<char>,
        destination: Seq<char>,
        unfollowed: Seq<char>,
        target: Seq<char>,
    },
}

impl View for LinkResolution {
    type V = LinkView;

    open spec fn view(&self) -> LinkView {
        match *self {
            LinkResolution::AwaitTarget { entry_path, destination_path, unfollowed_path } => {
                LinkView::AwaitTarget {
                    entry: entry_path@,
                    destination: destination_path@,
                    unfollowed: unfollowed_path@,
                }
            },
            LinkResolution::AwaitTargetExistence {
                entry_path,
                destination_path,
                unfollowed_path,
                target_path,
            } => LinkView::AwaitTargetExistence {
                entry: entry_path@,
                destination: destination_path@,
                unfollowed: unfollowed_path@,
                target: target_path@,
            },
            LinkResolution::AwaitBrokenLinkSize { entry_path, destination_path, target_path } => {
                LinkView::AwaitBrokenLinkSize {
                    entry: entry_path@,
                    destination: destination_path@,
                    target: target_path@,
                }
            },
            LinkResolution::AwaitTargetMetadata {
                entry_path,
                destination_path,
                unfollowed_path,
                target_path,
            } => LinkView::AwaitTargetMetadata {
                entry: entry_path@,
                destination: destination_path@,
                unfollowed: unfollowed_path@,
                target: target_path@,
            },
        }
    }
}

/// The request a link resolution waits for an answer to.
pub open spec fn link_request(link: LinkView) -> RequestView {
    match link {
        LinkView::AwaitTarget { entry, .. } => RequestView::ReadLink { path: entry },
        LinkView::AwaitTargetExistence { target, .. } => RequestView::SymlinkMetadata { path: target },
        LinkView::AwaitBrokenLinkSize { entry, .. } => RequestView::SymlinkMetadata { path: entry },
        LinkView::AwaitTargetMetadata { target, .. } => RequestView::Metadata { path: target },
    }
}

/// Where a copy plan stands.
#[derive(Debug)]
pub enum PlannerPhase {
    /// The source directory is a symbolic link that is kept: waiting for its size.
    AwaitBaseSymlinkSize,
    /// Waiting for the listing of a directory.
    AwaitListing { scan: PendingDirectoryScan },
    /// Resolving a symbolic link found in a listing; `remaining` holds the listing's
    /// unprocessed entries, the next one last.
    AwaitLink {
        scan: PendingDirectoryScan,
        remaining: Vec<Result<DirectoryEntryInfo, IoFailure>>,
        link: LinkResolution,
    },
    /// The plan is complete or has failed.
    Finished,
}

/// A planner phase, with its paths as character sequences.
pub enum PhaseView {
    AwaitBaseSymlinkSize,
    AwaitListing { scan: ScanView },
    AwaitLink { scan: ScanView, remaining: Seq<Result<EntryView, IoFailure>>, link: LinkView },
    Finished,
}

impl View for PlannerPhase {
    type V = PhaseView;

    open spec fn view(&self) -> PhaseView {
        match *self {
            PlannerPhase::AwaitBaseSymlinkSize => PhaseView::AwaitBaseSymlinkSize,
            PlannerPhase::AwaitListing { scan } => PhaseView::AwaitListing { scan: scan@ },
            PlannerPhase::AwaitLink { scan, remaining, link } => PhaseView::AwaitLink {
                scan: scan@,
                remaining: listing_view(remaining@),
                link: link@,
            },
            PlannerPhase::Finished => PhaseView::Finished,
        }
    }
}

/// A planning error, with its paths as character sequences.
pub enum PlanErrorView {
    UnableToAccess { path: Seq<char>, error: std::io::Error },
    EntryEscapesSourceDirectory { path: Seq<char> },
    DestinationItemAlreadyExists { path: Seq<char> },
    SymbolicLinkIsBroken { path: Seq<char> },
}

impl View for DirectoryExecutionPlanError {
    type V = PlanErrorView;

    open spec fn view(&self) -> PlanErrorView {
        match *self {
            DirectoryExecutionPlanError::UnableToAccess { path, error } => PlanErrorView::UnableToAccess {
                path: path@,
                error,
            },
            DirectoryExecutionPlanError::EntryEscapesSourceDirectory { path } => {
                PlanErrorView::EntryEscapesSourceDirectory { path: path@ }
            },
            DirectoryExecutionPlanError::DestinationItemAlreadyExists { path } => {
                PlanErrorView::DestinationItemAlreadyExists { path: path@ }
            },
            DirectoryExecutionPlanError::SymbolicLinkIsBroken { path } => {
                PlanErrorView::SymbolicLinkIsBroken { path: path@ }
            },
        }
    }
}

/// The state of a copy plan, with its paths as character sequences.
pub struct PlannerView {
    /// The operations queued so far, in order.
    pub queue: Seq<OperationView>,
    /// The directories waiting to be scanned; the next one last.
    pub scans: Seq<ScanView>,
    /// Where the plan stands.
    pub phase: PhaseView,
}

/// A step of the planner, with its paths as character sequences.
pub enum PlannerStepView {
    /// Perform a request.
    Perform(RequestView),
    /// Planning finished (the queue is the plan when it succeeded).
    Finished(Result<(), PlanErrorView>),
}

/// The view of a planner step.
pub open spec fn planner_step_view(step: MachineStep<Result<(), DirectoryExecutionPlanError>>) -> PlannerStepView {
    match step {
        MachineStep::Perform(r) => PlannerStepView::Perform(r@),
        MachineStep::Finished(Ok(())) => PlannerStepView::Finished(Ok(())),
        MachineStep::Finished(Err(e)) => PlannerStepView::Finished(Err(e@)),
    }
}

/// What processing one listed entry leads to, when it needs no further reading.
pub enum EntryOutcome {
    /// Planning fails.
    Fail(PlanErrorView),
    /// Optionally queue an operation, and optionally queue a directory for scanning.
    Queue(Option<OperationView>, Option<ScanView>),
    /// The entry is a symbolic link that must be resolved first.
    Resolve(LinkView),
}

/// The sequence holding the value of `o`, if any.
pub open spec fn optional(o: Option<OperationView>) -> Seq<OperationView> {
    match o {
        Some(v) => seq![v],
        None => Seq::empty(),
    }
}

/// The sequence holding the value of `o`, if any.
pub open spec fn optional_scan(o: Option<ScanView>) -> Seq<ScanView> {
    match o {
        Some(v) => seq![v],
        None => Seq::empty(),
    }
}

/// Scans a validated source directory and queues the operations that copy it, up to a depth
/// limit, to a validated destination directory.
///
/// For any entry in the queue, the creation of its parent directory comes before it. The
/// creation of the destination directory itself is queued only when it does not exist yet.
/// A source directory that is a symbolic link is recreated as a link when links are kept.
pub struct CopyPlanner {
    source: ValidatedSourceDirectory,
    destination: ValidatedDestinationDirectory,
    copy_depth_limit: DirectoryCopyDepthLimit,
    symlink_behaviour: SymlinkBehaviour,
    broken_symlink_behaviour: BrokenSymlinkBehaviour,
    queue: Vec<QueuedOperation>,
    pending_scans: Vec<PendingDirectoryScan>,
    phase: PlannerPhase,
}

/// What processing one entry led to.
enum EntryProcessed {
    Failed(DirectoryExecutionPlanError),
    Continued,
    NeedsLink(LinkResolution),
}

impl CopyPlanner {
    /// The canonical source directory path.
    pub closed spec fn source_root(&self) -> Seq<char> {
        self.source.directory_path@
    }

    /// The destination directory path.
    pub closed spec fn destination_root(&self) -> Seq<char> {
        self.destination.directory_path@
    }

    /// The depth limit of the plan.
    pub closed spec fn depth_limit(&self) -> DirectoryCopyDepthLimit {
        self.copy_depth_limit
    }

    /// Whether symbolic links are kept or followed.
    pub closed spec fn links(&self) -> SymlinkBehaviour {
        self.symlink_behaviour
    }

    /// What is done with broken symbolic links.
    pub closed spec fn broken_links(&self) -> BrokenSymlinkBehaviour {
        self.broken_symlink_behaviour
    }

    /// The state of the plan.
    pub closed spec fn state(&self) -> PlannerView {
        PlannerView {
            queue: operations_view(self.queue@),
            scans: scans_view(self.pending_scans@),
            phase: self.phase@,
        }
    }

    /// The operations queued so far.
    pub closed spec fn planned(&self) -> Seq<QueuedOperation> {
        self.queue@
    }

    /// The constant parts of the plan are those of `other`.
    pub open spec fn same_plan_as(&self, other: &CopyPlanner) -> bool {
        &&& self.source_root() == other.source_root()
        &&& self.destination_root() == other.destination_root()
        &&& self.depth_limit() == other.depth_limit()
        &&& self.links() == other.links()
        &&& self.broken_links() == other.broken_links()
    }

    /// A finished plan in state `queue`/`scans`.
    pub open spec fn finished(
        queue: Seq<OperationView>,
        scans: Seq<ScanView>,
        result: Result<(), PlanErrorView>,
    ) -> (PlannerView, PlannerStepView) {
        (PlannerView { queue, scans, phase: PhaseView::Finished }, PlannerStepView::Finished(result))
    }

    /// Takes the next pending directory for scanning, or finishes the plan.
    pub open spec fn pop_next(queue: Seq<OperationView>, scans: Seq<ScanView>) -> (PlannerView, PlannerStepView) {
        if scans.len() == 0 {
            Self::finished(queue, scans, Ok(()))
        } else {
            (
                PlannerView {
                    queue,
                    scans: scans.drop_last(),
                    phase: PhaseView::AwaitListing { scan: scans.last() },
                },
                PlannerStepView::Perform(RequestView::ReadDirectory { path: scans.last().directory }),
            )
        }
    }

    /// The outcome of a listed entry of the directory `scan`, up to the point where it needs
    /// further reading.
    pub open spec fn entry_outcome(&self, scan: ScanView, entry: Result<EntryView, IoFailure>) -> EntryOutcome {
        match entry {
            Err(f) => EntryOutcome::Fail(PlanErrorView::UnableToAccess { path: scan.directory, error: f.error }),
            Ok(info) => {
                let unfollowed = path_join(scan.unfollowed, info.file_name);
                match rejoined_path(self.source_root(), unfollowed, self.destination_root()) {
                    Err(p) => EntryOutcome::Fail(PlanErrorView::EntryEscapesSourceDirectory { path: p }),
                    Ok(destination) => match info.file_type {
                        Err(f) => EntryOutcome::Fail(PlanErrorView::UnableToAccess { path: info.path, error: f.error }),
                        Ok(EntryType::File) => match info.metadata {
                            Err(f) => EntryOutcome::Fail(PlanErrorView::UnableToAccess { path: info.path, error: f.error }),
                            Ok(m) => EntryOutcome::Queue(
                                Some(OperationView::CopyFile { source: info.path, destination, size: m.len }),
                                None,
                            ),
                        },
                        Ok(EntryType::Directory) => match info.metadata {
                            Err(f) => EntryOutcome::Fail(PlanErrorView::UnableToAccess { path: info.path, error: f.error }),
                            Ok(m) => EntryOutcome::Queue(
                                Some(OperationView::CreateDirectory { destination, create_parents: false, size: m.len }),
                                if descends_into(self.depth_limit(), scan.depth) {
                                    Some(ScanView { directory: info.path, unfollowed, depth: one_level_deeper(scan.depth) })
                                } else {
                                    None
                                },
                            ),
                        },
                        Ok(EntryType::Symlink) => EntryOutcome::Resolve(
                            LinkView::AwaitTarget { entry: info.path, destination, unfollowed },
                        ),
                        Ok(EntryType::Other) => EntryOutcome::Queue(None, None),
                    },
                }
            },
        }
    }

    /// Processes the remaining entries of the listing of `scan` (the next one last) until an
    /// entry needs further reading, planning fails, or the listing is exhausted.
    pub open spec fn drain(
        &self,
        queue: Seq<OperationView>,
        scans: Seq<ScanView>,
        scan: ScanView,
        remaining: Seq<Result<EntryView, IoFailure>>,
    ) -> (PlannerView, PlannerStepView)
        decreases remaining.len(),
    {
        if remaining.len() == 0 {
            Self::pop_next(queue, scans)
        } else {
            match self.entry_outcome(scan, remaining.last()) {
                EntryOutcome::Fail(e) => Self::finished(queue, scans, Err(e)),
                EntryOutcome::Queue(op, next_scan) => self.drain(
                    queue + optional(op),
                    scans + optional_scan(next_scan),
                    scan,
                    remaining.drop_last(),
                ),
                EntryOutcome::Resolve(link) => (
                    PlannerView {
                        queue,
                        scans,
                        phase: PhaseView::AwaitLink { scan, remaining: remaining.drop_last(), link },
                    },
                    PlannerStepView::Perform(link_request(link)),
                ),
            }
        }
    }

    /// The scan of the source directory itself.
    pub open spec fn root_scan(&self) -> ScanView {
        ScanView { directory: self.source_root(), unfollowed: self.source_root(), depth: 0 }
    }

    /// The outcome of a resolved symbolic link, given the metadata of its destination.
    pub open spec fn resolved_link_outcome(
        &self,
        scan: ScanView,
        entry: Seq<char>,
        destination: Seq<char>,
        unfollowed: Seq<char>,
        target: Seq<char>,
        meta: EntryMetadata,
    ) -> (Option<OperationView>, Option<ScanView>) {
        if self.links() is Keep {
            (Some(OperationView::CreateSymlink { link: destination, target, size: meta.len }), None)
        } else if meta.entry_type == EntryType::File {
            (Some(OperationView::CopyFile { source: target, destination, size: meta.len }), None)
        } else if meta.entry_type == EntryType::Directory {
            (
                Some(OperationView::CreateDirectory { destination, create_parents: false, size: meta.len }),
                if descends_into(self.depth_limit(), scan.depth) {
                    Some(ScanView { directory: entry, unfollowed, depth: one_level_deeper(scan.depth) })
                } else {
                    None
                },
            )
        } else {
            (None, None)
        }
    }

    /// The next state and step of the plan, given the response to its pending request.
    pub open spec fn next(&self, response: FsResponse) -> (PlannerView, PlannerStepView) {
        let v = self.state();
        match (v.phase, response) {
            (PhaseView::AwaitBaseSymlinkSize, FsResponse::Metadata(m)) => match m {
                Err(f) => Self::finished(v.queue, v.scans, Err(PlanErrorView::UnableToAccess { path: self.source_root(), error: f.error })),
                Ok(meta) => Self::finished(
                    v.queue.push(OperationView::CreateSymlink { link: self.destination_root(), target: self.source_root(), size: meta.len }),
                    v.scans,
                    Ok(()),
                ),
            },
            (PhaseView::AwaitListing { scan }, FsResponse::Listing(l)) => match l {
                Err(f) => Self::finished(v.queue, v.scans, Err(PlanErrorView::UnableToAccess { path: scan.directory, error: f.error })),
                Ok(entries) => self.drain(v.queue, v.scans, scan, listing_view(entries@).reverse()),
            },
            (PhaseView::AwaitLink { scan, remaining, link: LinkView::AwaitTarget { entry, destination, unfollowed } }, FsResponse::Path(p)) => match p {
                Err(f) => Self::finished(v.queue, v.scans, Err(PlanErrorView::UnableToAccess { path: entry, error: f.error })),
                Ok(target) => {
                    let link = LinkView::AwaitTargetExistence { entry, destination, unfollowed, target: target@ };
                    (PlannerView { phase: PhaseView::AwaitLink { scan, remaining, link }, ..v }, PlannerStepView::Perform(link_request(link)))
                },
            },
            (PhaseView::AwaitLink { scan, remaining, link: LinkView::AwaitTargetExistence { entry, destination, unfollowed, target } }, FsResponse::Metadata(m)) => match existence_of(m) {
                Err(e) => Self::finished(v.queue, v.scans, Err(PlanErrorView::UnableToAccess { path: target, error: e })),
                Ok(false) => if self.links() is Follow && self.broken_links() is Keep {
                    Self::finished(v.queue, v.scans, Err(PlanErrorView::UnableToAccess { path: target, error: m->Err_0.error }))
                } else {
                    let link = LinkView::AwaitBrokenLinkSize { entry, destination, target };
                    (PlannerView { phase: PhaseView::AwaitLink { scan, remaining, link }, ..v }, PlannerStepView::Perform(link_request(link)))
                },
                Ok(true) => {
                    let link = LinkView::AwaitTargetMetadata { entry, destination, unfollowed, target };
                    (PlannerView { phase: PhaseView::AwaitLink { scan, remaining, link }, ..v }, PlannerStepView::Perform(link_request(link)))
                },
            },
            (PhaseView::AwaitLink { scan, remaining, link: LinkView::AwaitBrokenLinkSize { entry, destination, target } }, FsResponse::Metadata(m)) => match m {
                Err(f) => Self::finished(v.queue, v.scans, Err(PlanErrorView::UnableToAccess { path: entry, error: f.error })),
                Ok(meta) => if self.broken_links() is Keep {
                    self.drain(v.queue.push(OperationView::CreateSymlink { link: destination, target, size: meta.len }), v.scans, scan, remaining)
                } else {
                    Self::finished(v.queue, v.scans, Err(PlanErrorView::SymbolicLinkIsBroken { path: entry }))
                },
            },
            (PhaseView::AwaitLink { scan, remaining, link: LinkView::AwaitTargetMetadata { entry, destination, unfollowed, target } }, FsResponse::Metadata(m)) => match m {
                Err(f) => Self::finished(v.queue, v.scans, Err(PlanErrorView::UnableToAccess { path: target, error: f.error })),
                Ok(meta) => {
                    let (op, next_scan) = self.resolved_link_outcome(scan, entry, destination, unfollowed, target, meta);
                    self.drain(v.queue + optional(op), v.scans + optional_scan(next_scan), scan, remaining)
                },
            },
            _ => (v, PlannerStepView::Finished(Ok(()))),
        }
    }

    /// Whether `response` can resume this plan.
    pub open spec fn accepts(&self, response: FsResponse) -> bool {
        match self.state().phase {
            PhaseView::AwaitBaseSymlinkSize => response is Metadata,
            PhaseView::AwaitListing { .. } => response is Listing,
            PhaseView::AwaitLink { link: LinkView::AwaitTarget { .. }, .. } => response is Path,
            PhaseView::AwaitLink { .. } => response is Metadata,
            PhaseView::Finished => false,
        }
    }

    /// The state and first step of a plan of a copy of `source` to `destination`.
    pub open spec fn initial(
        source: ValidatedSourceDirectory,
        destination: ValidatedDestinationDirectory,
        links: SymlinkBehaviour,
    ) -> (PlannerView, PlannerStepView) {
        let root = source.directory_path@;
        if links is Keep && source.original_path_was_symlink_to_directory {
            (
                PlannerView { queue: Seq::empty(), scans: Seq::empty(), phase: PhaseView::AwaitBaseSymlinkSize },
                PlannerStepView::Perform(RequestView::SymlinkMetadata { path: root }),
            )
        } else {
            (
                PlannerView {
                    queue: Seq::empty(),
                    scans: Seq::empty(),
                    phase: PhaseView::AwaitListing { scan: ScanView { directory: root, unfollowed: root, depth: 0 } },
                },
                PlannerStepView::Perform(RequestView::ReadDirectory { path: root }),
            )
        }
    }

    /// Starts planning a copy of `source` to `destination`.
    pub fn start(
        source: ValidatedSourceDirectory,
        destination: ValidatedDestinationDirectory,
        copy_depth_limit: DirectoryCopyDepthLimit,
        symlink_behaviour: SymlinkBehaviour,
        broken_symlink_behaviour: BrokenSymlinkBehaviour,
    ) -> (r: (CopyPlanner, FsRequest))
        ensures
            r.0.source_root() == source.directory_path@,
            r.0.destination_root() == destination.directory_path@,
            r.0.depth_limit() == copy_depth_limit,
            r.0.links() == symlink_behaviour,
            r.0.broken_links() == broken_symlink_behaviour,
            (r.0.state(), PlannerStepView::Perform(r.1@)) == Self::initial(source, destination, symlink_behaviour),
    {
        let source_path = source.directory_path.clone();
        let keeps_base_link = match symlink_behaviour {
            SymlinkBehaviour::Keep => source.original_path_was_symlink_to_directory,
            SymlinkBehaviour::Follow => false,
        };
        let mut planner = CopyPlanner {
            source,
            destination,
            copy_depth_limit,
            symlink_behaviour,
            broken_symlink_behaviour,
            queue: Vec::new(),
            pending_scans: Vec::new(),
            phase: PlannerPhase::Finished,
        };
        proof {
            assert(operations_view(planner.queue@) =~= Seq::empty());
            assert(scans_view(planner.pending_scans@) =~= Seq::empty());
        }
        if keeps_base_link {
            planner.phase = PlannerPhase::AwaitBaseSymlinkSize;
            (planner, FsRequest::SymlinkMetadata { path: source_path })
        } else {
            let scan = PendingDirectoryScan {
                directory_path: source_path.clone(),
                directory_path_without_symlink_follows: source_path.clone(),
                depth: 0,
            };
            planner.phase = PlannerPhase::AwaitListing { scan };
            (planner, FsRequest::ReadDirectory { path: source_path })
        }
    }

    /// Whether `response` can resume this plan.
    pub fn can_accept(&self, response: &FsResponse) -> (r: bool)
        ensures
            r == self.accepts(*response),
    {
        match (&self.phase, response) {
            (PlannerPhase::AwaitBaseSymlinkSize, FsResponse::Metadata(_)) => true,
            (PlannerPhase::AwaitListing { .. }, FsResponse::Listing(_)) => true,
            (PlannerPhase::AwaitLink { link: LinkResolution::AwaitTarget { .. }, .. }, FsResponse::Path(_)) => true,
            (PlannerPhase::AwaitLink { link: LinkResolution::AwaitTarget { .. }, .. }, _) => false,
            (PlannerPhase::AwaitLink { .. }, FsResponse::Metadata(_)) => true,
            _ => false,
        }
    }

    /// Consumes the planner and returns the operations it queued.
    pub fn into_queue(self) -> (r: Vec<QueuedOperation>)
        ensures
            r@ == self.planned(),
            operations_view(r@) == self.state().queue,
    {
        self.queue
    }

    /// Queues a scan of a directory.
    fn push_scan(&mut self, directory_path: String, unfollowed: String, depth: usize)
        ensures
            final(self).same_plan_as(old(self)),
            final(self).state() == (PlannerView {
                scans: old(self).state().scans.push(ScanView { directory: directory_path@, unfollowed: unfollowed@, depth }),
                ..old(self).state()
            }),
    {
        let scan = PendingDirectoryScan { directory_path, directory_path_without_symlink_follows: unfollowed, depth };
        self.pending_scans.push(scan);
        proof {
            assert(scans_view(self.pending_scans@) =~= scans_view(old(self).pending_scans@).push(scan@));
        }
    }

    /// Queues an operation.
    fn push_operation(&mut self, op: QueuedOperation)
        ensures
            final(self).same_plan_as(old(self)),
            final(self).state() == (PlannerView {
                queue: old(self).state().queue.push(op@),
                ..old(self).state()
            }),
    {
        self.queue.push(op);
        proof {
            assert(operations_view(self.queue@) =~= operations_view(old(self).queue@).push(op@));
        }
    }

    /// Processes one listed entry of the directory `scan`.
    fn process_entry(&mut self, scan: &PendingDirectoryScan, entry: Result<DirectoryEntryInfo, IoFailure>) -> (r: EntryProcessed)
        ensures
            final(self).same_plan_as(old(self)),
            final(self).state().phase == old(self).state().phase,
            match old(self).entry_outcome(scan@, match entry { Ok(i) => Ok(i@), Err(f) => Err(f) }) {
                EntryOutcome::Fail(e) => r matches EntryProcessed::Failed(err) && err@ == e
                    && final(self).state() == old(self).state(),
                EntryOutcome::Queue(op, next_scan) => r is Continued
                    && final(self).state().queue == old(self).state().queue + optional(op)
                    && final(self).state().scans == old(self).state().scans + optional_scan(next_scan),
                EntryOutcome::Resolve(link) => r matches EntryProcessed::NeedsLink(l) && l@ == link
                    && final(self).state() == old(self).state(),
            },
    {
        let info = match entry {
            Err(f) => {
                return EntryProcessed::Failed(DirectoryExecutionPlanError::UnableToAccess {
                    path: scan.directory_path.clone(),
                    error: f.error,
                });
            },
            Ok(info) => info,
        };
        let unfollowed = join_paths(scan.directory_path_without_symlink_follows.as_str(), info.file_name.as_str());
        let destination = match join_relative_source_path_onto_destination(
            self.source.directory_path.as_str(),
            unfollowed.as_str(),
            self.destination.directory_path.as_str(),
        ) {
            Err(e) => {
                return EntryProcessed::Failed(DirectoryExecutionPlanError::EntryEscapesSourceDirectory { path: e.path });
            },
            Ok(d) => d,
        };
        let file_type = match info.file_type {
            Err(f) => {
                return EntryProcessed::Failed(DirectoryExecutionPlanError::UnableToAccess { path: info.path, error: f.error });
            },
            Ok(t) => t,
        };
        match file_type {
            EntryType::File => match info.metadata {
                Err(f) => EntryProcessed::Failed(DirectoryExecutionPlanError::UnableToAccess { path: info.path, error: f.error }),
                Ok(m) => {
                    let op = QueuedOperation::CopyFile {
                        source_file_path: info.path,
                        destination_file_path: destination,
                        source_size_bytes: m.len,
                    };
                    self.push_operation(op);
                    proof {
                        assert(old(self).state().scans + optional_scan(None) =~= old(self).state().scans);
                        assert(old(self).state().queue.push(op@) =~= old(self).state().queue + optional(Some(op@)));
                    }
                    EntryProcessed::Continued
                },
            },
            EntryType::Directory => match info.metadata {
                Err(f) => EntryProcessed::Failed(DirectoryExecutionPlanError::UnableToAccess { path: info.path, error: f.error }),
                Ok(m) => {
                    let descend = may_descend_into(self.copy_depth_limit, scan.depth);
                    let entry_path = info.path;
                    let scan_path = entry_path.clone();
                    let op = QueuedOperation::CreateDirectory {
                        destination_directory_path: destination,
                        create_parent_directories: false,
                        source_size_bytes: m.len,
                    };
                    self.push_operation(op);
                    proof {
                        assert(old(self).state().queue.push(op@) =~= old(self).state().queue + optional(Some(op@)));
                    }
                    if descend {
                        let depth = if scan.depth < usize::MAX { scan.depth + 1 } else { scan.depth };
                        let ghost scans_before = self.state().scans;
                        self.push_scan(scan_path, unfollowed, depth);
                        proof {
                            assert(scans_before.push(self.state().scans.last()) =~= scans_before + optional_scan(Some(self.state().scans.last())));
                        }
                    } else {
                        proof {
                            assert(old(self).state().scans + optional_scan(None) =~= old(self).state().scans);
                        }
                    }
                    EntryProcessed::Continued
                },
            },
            EntryType::Symlink => EntryProcessed::NeedsLink(LinkResolution::AwaitTarget {
                entry_path: info.path,
                destination_path: destination,
                unfollowed_path: unfollowed,
            }),
            EntryType::Other => {
                proof {
                    assert(old(self).state().scans + optional_scan(None) =~= old(self).state().scans);
                    assert(old(self).state().queue + optional(None) =~= old(self).state().queue);
                }
                EntryProcessed::Continued
            },
        }
    }

    /// Takes the next pending directory for scanning, or finishes the plan.
    fn take_next_scan(&mut self) -> (step: MachineStep<Result<(), DirectoryExecutionPlanError>>)
        ensures
            final(self).same_plan_as(old(self)),
            (final(self).state(), planner_step_view(step)) == Self::pop_next(old(self).state().queue, old(self).state().scans),
    {
        match self.pending_scans.pop() {
            None => {
                self.phase = PlannerPhase::Finished;
                MachineStep::Finished(Ok(()))
            },
            Some(scan) => {
                proof {
                    assert(scans_view(self.pending_scans@) =~= scans_view(old(self).pending_scans@).drop_last());
                }
                let request = FsRequest::ReadDirectory { path: scan.directory_path.clone() };
                self.phase = PlannerPhase::AwaitListing { scan };
                MachineStep::Perform(request)
            },
        }
    }

    /// Processes the remaining entries of the listing of `scan` (the next one last).
    fn drain_listing(
        &mut self,
        scan: PendingDirectoryScan,
        remaining: Vec<Result<DirectoryEntryInfo, IoFailure>>,
    ) -> (step: MachineStep<Result<(), DirectoryExecutionPlanError>>)
        ensures
            final(self).same_plan_as(old(self)),
            (final(self).state(), planner_step_view(step)) == old(self).drain(
                old(self).state().queue,
                old(self).state().scans,
                scan@,
                listing_view(remaining@),
            ),
    {
        let ghost target = old(self).drain(old(self).state().queue, old(self).state().scans, scan@, listing_view(remaining@));
        let mut rest = remaining;
        loop
            invariant
                self.same_plan_as(old(self)),
                target == old(self).drain(old(self).state().queue, old(self).state().scans, scan@, listing_view(remaining@)),
                self.drain(self.state().queue, self.state().scans, scan@, listing_view(rest@)) == target,
            decreases rest.len(),
        {
            let ghost before = listing_view(rest@);
            match rest.pop() {
                None => {
                    return self.take_next_scan();
                },
                Some(entry) => {
                    proof {
                        assert(listing_view(rest@) =~= before.drop_last());
                        assert(before.last() == match entry { Ok(i) => Ok(i@), Err(f) => Err(f) });
                    }
                    let ghost previous = *self;
                    match self.process_entry(&scan, entry) {
                        EntryProcessed::Failed(e) => {
                            self.phase = PlannerPhase::Finished;
                            return MachineStep::Finished(Err(e));
                        },
                        EntryProcessed::Continued => {
                            proof {
                                Self::lemma_drain_same_plan(self, &previous, self.state().queue, self.state().scans, scan@, listing_view(rest@));
                            }
                        },
                        EntryProcessed::NeedsLink(link) => {
                            let request = match &link {
                                LinkResolution::AwaitTarget { entry_path, .. } => FsRequest::ReadLink { path: entry_path.clone() },
                                LinkResolution::AwaitTargetExistence { target_path, .. } => FsRequest::SymlinkMetadata { path: target_path.clone() },
                                LinkResolution::AwaitBrokenLinkSize { entry_path, .. } => FsRequest::SymlinkMetadata { path: entry_path.clone() },
                                LinkResolution::AwaitTargetMetadata { target_path, .. } => FsRequest::Metadata { path: target_path.clone() },
                            };
                            self.phase = PlannerPhase::AwaitLink { scan, remaining: rest, link };
                            return MachineStep::Perform(request);
                        },
                    }
                },
            }
        }
    }

    /// Draining a listing depends on the constant parts of the plan only.
    proof fn lemma_drain_same_plan(
        a: &CopyPlanner,
        b: &CopyPlanner,
        queue: Seq<OperationView>,
        scans: Seq<ScanView>,
        scan: ScanView,
        remaining: Seq<Result<EntryView, IoFailure>>,
    )
        requires
            a.same_plan_as(b),
        ensures
            a.drain(queue, scans, scan, remaining) == b.drain(queue, scans, scan, remaining),
        decreases remaining.len(),
    {
        if remaining.len() > 0 {
            assert(a.entry_outcome(scan, remaining.last()) == b.entry_outcome(scan, remaining.last()));
            match a.entry_outcome(scan, remaining.last()) {
                EntryOutcome::Queue(op, next_scan) => {
                    Self::lemma_drain_same_plan(a, b, queue + optional(op), scans + optional_scan(next_scan), scan, remaining.drop_last());
                },
                _ => {},
            }
        }
    }

    /// Reverses a listing, so that its first entry comes last.
    fn reversed(entries: Vec<Result<DirectoryEntryInfo, IoFailure>>) -> (r: Vec<Result<DirectoryEntryInfo, IoFailure>>)
        ensures
            listing_view(r@) == listing_view(entries@).reverse(),
    {
        let ghost original = listing_view(entries@);
        let mut entries = entries;
        let mut reversed: Vec<Result<DirectoryEntryInfo, IoFailure>> = Vec::new();
        while entries.len() > 0
            invariant
                original.len() == listing_view(entries@).len() + listing_view(reversed@).len(),
                listing_view(entries@) =~= original.take(entries.len() as int),
                forall|i: int| 0 <= i < reversed.len() ==> #[trigger] listing_view(reversed@)[i] == original[original.len() - 1 - i],
            decreases entries.len(),
        {
            let ghost ev = listing_view(entries@);
            let ghost rv = listing_view(reversed@);
            let e = entries.pop().unwrap();
            reversed.push(e);
            proof {
                assert(listing_view(entries@) =~= ev.drop_last());
                assert(listing_view(reversed@) =~= rv.push(ev.last()));
            }
        }
        proof {
            assert(listing_view(reversed@) =~= original.reverse());
        }
        reversed
    }

    /// Resumes the plan with the response to its pending request.
    pub fn resume(&mut self, response: FsResponse) -> (step: MachineStep<Result<(), DirectoryExecutionPlanError>>)
        requires
            old(self).accepts(response),
        ensures
            final(self).same_plan_as(old(self)),
            (final(self).state(), planner_step_view(step)) == old(self).next(response),
    {
        let mut phase = PlannerPhase::Finished;
        std::mem::swap(&mut phase, &mut self.phase);
        proof {
            assert(self.state() == PlannerView { phase: PhaseView::Finished, ..old(self).state() });
        }
        match (phase, response) {
            (PlannerPhase::AwaitBaseSymlinkSize, FsResponse::Metadata(m)) => match m {
                Err(f) => MachineStep::Finished(Err(DirectoryExecutionPlanError::UnableToAccess {
                    path: self.source.directory_path.clone(),
                    error: f.error,
                })),
                Ok(meta) => {
                    let op = QueuedOperation::CreateSymlink {
                        symlink_path: self.destination.directory_path.clone(),
                        symlink_destination_path: self.source.directory_path.clone(),
                        source_symlink_size_bytes: meta.len,
                    };
                    self.push_operation(op);
                    MachineStep::Finished(Ok(()))
                },
            },
            (PlannerPhase::AwaitListing { scan }, FsResponse::Listing(l)) => match l {
                Err(f) => MachineStep::Finished(Err(DirectoryExecutionPlanError::UnableToAccess {
                    path: scan.directory_path,
                    error: f.error,
                })),
                Ok(entries) => {
                    let remaining = Self::reversed(entries);
                    proof {
                        Self::lemma_drain_same_plan(self, old(self), self.state().queue, self.state().scans, scan@, listing_view(remaining@));
                    }
                    self.drain_listing(scan, remaining)
                },
            },
            (PlannerPhase::AwaitLink { scan, remaining, link }, response) => match (link, response) {
                (LinkResolution::AwaitTarget { entry_path, destination_path, unfollowed_path }, FsResponse::Path(p)) => match p {
                    Err(f) => MachineStep::Finished(Err(DirectoryExecutionPlanError::UnableToAccess { path: entry_path, error: f.error })),
                    Ok(target_path) => {
                        let request = FsRequest::SymlinkMetadata { path: target_path.clone() };
                        self.phase = PlannerPhase::AwaitLink {
                            scan,
                            remaining,
                            link: LinkResolution::AwaitTargetExistence { entry_path, destination_path, unfollowed_path, target_path },
                        };
                        MachineStep::Perform(request)
                    },
                },
                (LinkResolution::AwaitTargetExistence { entry_path, destination_path, unfollowed_path, target_path }, FsResponse::Metadata(m)) => match m {
                    Ok(_) => {
                        let request = FsRequest::Metadata { path: target_path.clone() };
                        self.phase = PlannerPhase::AwaitLink {
                            scan,
                            remaining,
                            link: LinkResolution::AwaitTargetMetadata { entry_path, destination_path, unfollowed_path, target_path },
                        };
                        MachineStep::Perform(request)
                    },
                    Err(failure) => if failure.not_found {
                        if matches!(self.symlink_behaviour, SymlinkBehaviour::Follow)
                            && matches!(self.broken_symlink_behaviour, BrokenSymlinkBehaviour::Keep) {
                            return MachineStep::Finished(Err(DirectoryExecutionPlanError::UnableToAccess { path: target_path, error: failure.error }));
                        }
                        let request = FsRequest::SymlinkMetadata { path: entry_path.clone() };
                        self.phase = PlannerPhase::AwaitLink {
                            scan,
                            remaining,
                            link: LinkResolution::AwaitBrokenLinkSize { entry_path, destination_path, target_path },
                        };
                        MachineStep::Perform(request)
                    } else {
                        MachineStep::Finished(Err(DirectoryExecutionPlanError::UnableToAccess { path: target_path, error: failure.error }))
                    },
                },
                (LinkResolution::AwaitBrokenLinkSize { entry_path, destination_path, target_path }, FsResponse::Metadata(m)) => match m {
                    Err(f) => MachineStep::Finished(Err(DirectoryExecutionPlanError::UnableToAccess { path: entry_path, error: f.error })),
                    Ok(meta) => match self.broken_symlink_behaviour {
                        BrokenSymlinkBehaviour::Keep => {
                            let op = QueuedOperation::CreateSymlink {
                                symlink_path: destination_path,
                                symlink_destination_path: target_path,
                                source_symlink_size_bytes: meta.len,
                            };
                            self.push_operation(op);
                            proof {
                                Self::lemma_drain_same_plan(self, old(self), self.state().queue, self.state().scans, scan@, listing_view(remaining@));
                            }
                            self.drain_listing(scan, remaining)
                        },
                        BrokenSymlinkBehaviour::Abort => MachineStep::Finished(Err(DirectoryExecutionPlanError::SymbolicLinkIsBroken { path: entry_path })),
                    },
                },
                (LinkResolution::AwaitTargetMetadata { entry_path, destination_path, unfollowed_path, target_path }, FsResponse::Metadata(m)) => match m {
                    Err(f) => MachineStep::Finished(Err(DirectoryExecutionPlanError::UnableToAccess { path: target_path, error: f.error })),
                    Ok(meta) => {
                        let ghost before = self.state();
                        let ghost outcome = old(self).resolved_link_outcome(scan@, entry_path@, destination_path@, unfollowed_path@, target_path@, meta);
                        match self.symlink_behaviour {
                            SymlinkBehaviour::Keep => {
                                let op = QueuedOperation::CreateSymlink {
                                    symlink_path: destination_path,
                                    symlink_destination_path: target_path,
                                    source_symlink_size_bytes: meta.len,
                                };
                                self.push_operation(op);
                                proof {
                                    assert(before.queue.push(op@) =~= before.queue + optional(outcome.0));
                                    assert(before.scans =~= before.scans + optional_scan(outcome.1));
                                }
                            },
                            SymlinkBehaviour::Follow => {
                                if meta.entry_type == EntryType::File {
                                    let op = QueuedOperation::CopyFile {
                                        source_file_path: target_path,
                                        destination_file_path: destination_path,
                                        source_size_bytes: meta.len,
                                    };
                                    self.push_operation(op);
                                    proof {
                                        assert(before.queue.push(op@) =~= before.queue + optional(outcome.0));
                                        assert(before.scans =~= before.scans + optional_scan(outcome.1));
                                    }
                                } else if meta.entry_type == EntryType::Directory {
                                    let descend = may_descend_into(self.copy_depth_limit, scan.depth);
                                    let op = QueuedOperation::CreateDirectory {
                                        destination_directory_path: destination_path,
                                        create_parent_directories: false,
                                        source_size_bytes: meta.len,
                                    };
                                    self.push_operation(op);
                                    proof {
                                        assert(before.queue.push(op@) =~= before.queue + optional(outcome.0));
                                    }
                                    if descend {
                                        let depth = if scan.depth < usize::MAX { scan.depth + 1 } else { scan.depth };
                                        let ghost mid = self.state().scans;
                                        self.push_scan(entry_path, unfollowed_path, depth);
                                        proof {
                                            assert(mid.push(self.state().scans.last()) =~= before.scans + optional_scan(outcome.1));
                                        }
                                    } else {
                                        proof {
                                            assert(before.scans =~= before.scans + optional_scan(outcome.1));
                                        }
                                    }
                                } else {
                                    proof {
                                        assert(before.queue =~= before.queue + optional(outcome.0));
                                        assert(before.scans =~= before.scans + optional_scan(outcome.1));
                                    }
                                }
                            },
                        }
                        proof {
                            Self::lemma_drain_same_plan(self, old(self), self.state().queue, self.state().scans, scan@, listing_view(remaining@));
                        }
                        self.drain_listing(scan, remaining)
                    },
                },
                (link, _) => {
                    self.phase = PlannerPhase::AwaitLink { scan, remaining, link };
                    MachineStep::Finished(Ok(()))
                },
            },
            (phase, _) => {
                self.phase = phase;
                MachineStep::Finished(Ok(()))
            },
        }
    }

    /// Processing a listing asks for nothing but inspections.
    pub proof fn lemma_drain_only_inspects(
        &self,
        queue: Seq<OperationView>,
        scans: Seq<ScanView>,
        scan: ScanView,
        remaining: Seq<Result<EntryView, IoFailure>>,
    )
        ensures
            self.drain(queue, scans, scan, remaining).1 matches PlannerStepView::Perform(r) ==> is_inspection(r),
        decreases remaining.len(),
    {
        if remaining.len() > 0 {
            match self.entry_outcome(scan, remaining.last()) {
                EntryOutcome::Queue(op, next_scan) => {
                    self.lemma_drain_only_inspects(queue + optional(op), scans + optional_scan(next_scan), scan, remaining.drop_last());
                },
                _ => {},
            }
        }
    }

    /// A plan asks for nothing but inspections.
    pub proof fn lemma_next_only_inspects(&self, response: FsResponse)
        ensures
            self.next(response).1 matches PlannerStepView::Perform(r) ==> is_inspection(r),
    {
        let v = self.state();
        match (v.phase, response) {
            (PhaseView::AwaitListing { scan }, FsResponse::Listing(Ok(entries))) => {
                self.lemma_drain_only_inspects(v.queue, v.scans, scan, listing_view(entries@).reverse());
            },
            (PhaseView::AwaitLink { scan, remaining, link: LinkView::AwaitBrokenLinkSize { destination, target, .. } }, FsResponse::Metadata(Ok(meta))) => {
                self.lemma_drain_only_inspects(
                    v.queue.push(OperationView::CreateSymlink { link: destination, target, size: meta.len }),
                    v.scans,
                    scan,
                    remaining,
                );
            },
            (PhaseView::AwaitLink { scan, remaining, link: LinkView::AwaitTargetMetadata { entry, destination, unfollowed, target } }, FsResponse::Metadata(Ok(meta))) => {
                let (op, next_scan) = self.resolved_link_outcome(scan, entry, destination, unfollowed, target, meta);
                self.lemma_drain_only_inspects(v.queue + optional(op), v.scans + optional_scan(next_scan), scan, remaining);
            },
            _ => {},
        }
    }
}

} // verus!
