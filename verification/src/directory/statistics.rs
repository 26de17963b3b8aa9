//! Totals over the entries of a directory scan: directory sizes and move statistics.
use vstd::prelude::*;

use super::scan::{
    BreadthFirstDirectoryIter, DirectoryScanDepthLimit, DirectoryScanOptionsV2, DirectoryScanView,
    ScanEntry, ScanItem,
};
use crate::error::{DirectoryScanError, DirectorySizeScanError};
use crate::requests::{EntryType, MachineStep};

verus! {

/// How many listed entries the open directory of a scan still holds.
pub open spec fn unread_entries(v: DirectoryScanView) -> nat {
    match v.open {
        Some(o) => o.remaining.len(),
        None => 0,
    }
}

/// A scan that is advanced and yields an entry without asking for anything has one unread
/// entry less.
pub proof fn lemma_entry_without_request_consumes_listing(v: DirectoryScanView)
    requires
        v.advance().1 matches MachineStep::Finished(Some(Ok(_))),
    ensures
        unread_entries(v.advance().0) < unread_entries(v),
{
}

/// Counts of the entries of a directory tree, and their total size.
#[derive(Clone, Copy, PartialEq, Eq, Debug, Structural)]
pub struct DirectoryStatistics {
    /// Sum of the sizes of the entries, in bytes (saturated at `u64::MAX`).
    pub total_bytes: u64,
    /// Number of files.
    pub total_files: usize,
    /// Number of symbolic links.
    pub total_symlinks: usize,
    /// Number of directories (the base directory included).
    pub total_directories: usize,
}

/// The statistics after one more entry.
pub open spec fn with_entry(stats: DirectoryStatistics, entry: ScanEntry) -> DirectoryStatistics {
    let t = entry.metadata.entry_type;
    DirectoryStatistics {
        total_bytes: stats.total_bytes.saturating_add(entry.metadata.len),
        total_files: if t == EntryType::File { stats.total_files.saturating_add(1) } else { stats.total_files },
        total_symlinks: if t == EntryType::Symlink { stats.total_symlinks.saturating_add(1) } else { stats.total_symlinks },
        total_directories: if t == EntryType::Directory { stats.total_directories.saturating_add(1) } else { stats.total_directories },
    }
}

/// The statistics of the entries `entries`, counted from `stats`.
pub open spec fn statistics_of(stats: DirectoryStatistics, entries: Seq<ScanEntry>) -> DirectoryStatistics
    decreases entries.len(),
{
    if entries.len() == 0 {
        stats
    } else {
        with_entry(statistics_of(stats, entries.drop_last()), entries.last())
    }
}

/// Statistics with nothing counted.
pub open spec fn no_statistics() -> DirectoryStatistics {
    DirectoryStatistics { total_bytes: 0, total_files: 0, total_symlinks: 0, total_directories: 0 }
}

/// The options of the scans that totals are made over: the base directory is yielded,
/// there is no depth limit, links inside the tree are not followed, and a link at the base
/// directory path is.
pub open spec fn totals_scan_options() -> DirectoryScanOptionsV2 {
    DirectoryScanOptionsV2 {
        yield_base_directory: true,
        maximum_scan_depth: DirectoryScanDepthLimit::Unlimited,
        follow_symbolic_links: false,
        follow_base_directory_symbolic_link: true,
    }
}

/// What a statistics collection does after a scan item: it finishes, or goes on with
/// updated statistics.
pub enum CollectionOutcome {
    /// The collection finished.
    Done(Result<DirectoryStatistics, DirectoryScanError>),
    /// The collection goes on.
    Continue(DirectoryStatistics),
}

/// What a statistics collection at `stats` does after the scan item `item`.
pub open spec fn collect_item(stats: DirectoryStatistics, item: ScanItem) -> CollectionOutcome {
    match item {
        None => CollectionOutcome::Done(Ok(stats)),
        Some(Err(e)) => CollectionOutcome::Done(Err(e)),
        Some(Ok(entry)) => CollectionOutcome::Continue(with_entry(stats, entry)),
    }
}

/// A statistics collection over a scan in state `v`, with `stats` so far, run until the scan
/// asks for a request or the collection finishes: the scan's state, the statistics, and the
/// request or the result.
pub open spec fn collect(v: DirectoryScanView, stats: DirectoryStatistics) -> (
    DirectoryScanView,
    DirectoryStatistics,
    MachineStep<Result<DirectoryStatistics, DirectoryScanError>>,
)
    decreases unread_entries(v),
{
    let (v2, step) = v.advance();
    match step {
        MachineStep::Perform(r) => (v2, stats, MachineStep::Perform(r)),
        MachineStep::Finished(item) => match collect_item(stats, item) {
            CollectionOutcome::Done(result) => (v2, stats, MachineStep::Finished(result)),
            CollectionOutcome::Continue(stats2) => {
                proof {
                    lemma_entry_without_request_consumes_listing(v);
                }
                collect(v2, stats2)
            },
        },
    }
}

/// The statistics collection after the scan stepped to `v`/`step` with `stats` so far.
pub open spec fn collect_after(v: DirectoryScanView, stats: DirectoryStatistics, step: MachineStep<ScanItem>) -> (
    DirectoryScanView,
    DirectoryStatistics,
    MachineStep<Result<DirectoryStatistics, DirectoryScanError>>,
) {
    match step {
        MachineStep::Perform(r) => (v, stats, MachineStep::Perform(r)),
        MachineStep::Finished(item) => match collect_item(stats, item) {
            CollectionOutcome::Done(result) => (v, stats, MachineStep::Finished(result)),
            CollectionOutcome::Continue(stats2) => collect(v, stats2),
        },
    }
}

impl DirectoryStatistics {
    /// Counts `entry` in.
    pub fn add_entry(&mut self, entry: &ScanEntry)
        ensures
            *final(self) == with_entry(*old(self), *entry),
    {
        let t = entry.metadata.entry_type;
        self.total_bytes = self.total_bytes.saturating_add(entry.metadata.len);
        if t == EntryType::File {
            self.total_files = self.total_files.saturating_add(1);
        } else if t == EntryType::Symlink {
            self.total_symlinks = self.total_symlinks.saturating_add(1);
        } else if t == EntryType::Directory {
            self.total_directories = self.total_directories.saturating_add(1);
        }
    }
}

/// Runs a statistics collection over `scan` from `stats` until the scan asks for a request or
/// the collection finishes.
pub fn collect_statistics(scan: &mut BreadthFirstDirectoryIter, stats: &mut DirectoryStatistics) -> (r: MachineStep<
    Result<DirectoryStatistics, DirectoryScanError>,
>)
    requires
        old(scan).well_formed(),
        old(scan).view_state().phase is Idle,
    ensures
        final(scan).well_formed(),
        (final(scan).view_state(), *final(stats), r) == collect(old(scan).view_state(), *old(stats)),
{
    loop
        invariant
            scan.well_formed(),
            scan.view_state().phase is Idle,
            collect(scan.view_state(), *stats) == collect(old(scan).view_state(), *old(stats)),
        decreases unread_entries(scan.view_state()),
    {
        let ghost before = scan.view_state();
        let step = scan.advance();
        match step {
            MachineStep::Perform(request) => {
                return MachineStep::Perform(request);
            },
            MachineStep::Finished(None) => {
                return MachineStep::Finished(Ok(*stats));
            },
            MachineStep::Finished(Some(Err(e))) => {
                return MachineStep::Finished(Err(e));
            },
            MachineStep::Finished(Some(Ok(entry))) => {
                proof {
                    lemma_entry_without_request_consumes_listing(before);
                }
                stats.add_entry(&entry);
            },
        }
    }
}

/// Continues a statistics collection after `scan` stepped to `step`.
pub fn collect_statistics_after(
    scan: &mut BreadthFirstDirectoryIter,
    stats: &mut DirectoryStatistics,
    step: MachineStep<ScanItem>,
) -> (r: MachineStep<Result<DirectoryStatistics, DirectoryScanError>>)
    requires
        old(scan).well_formed(),
        step is Finished ==> old(scan).view_state().phase is Idle,
    ensures
        final(scan).well_formed(),
        (final(scan).view_state(), *final(stats), r) == collect_after(old(scan).view_state(), *old(stats), step),
{
    match step {
        MachineStep::Perform(request) => MachineStep::Perform(request),
        MachineStep::Finished(None) => MachineStep::Finished(Ok(*stats)),
        MachineStep::Finished(Some(Err(e))) => MachineStep::Finished(Err(e)),
        MachineStep::Finished(Some(Ok(entry))) => {
            stats.add_entry(&entry);
            collect_statistics(scan, stats)
        },
    }
}

/// The size result of a finished statistics collection over the scan of `directory_path`.
pub open spec fn size_result(
    directory_path: String,
    result: Result<DirectoryStatistics, DirectoryScanError>,
) -> Result<u64, DirectorySizeScanError> {
    match result {
        Ok(stats) => Ok(stats.total_bytes),
        Err(error) => Err(DirectorySizeScanError::ScanError { error, directory_path }),
    }
}

/// The size step of a statistics collection step over the scan of `directory_path`.
pub open spec fn size_step(
    directory_path: String,
    step: MachineStep<Result<DirectoryStatistics, DirectoryScanError>>,
) -> MachineStep<Result<u64, DirectorySizeScanError>> {
    match step {
        MachineStep::Perform(r) => MachineStep::Perform(r),
        MachineStep::Finished(result) => MachineStep::Finished(size_result(directory_path, result)),
    }
}

/// Computes the size of a directory tree: the sum of the sizes of all its entries, the base
/// directory included, without following symbolic links inside the tree (a symbolic link at
/// the base directory path is followed).
pub struct DirectorySizeScan {
    /// The directory whose size is computed, as given.
    pub directory_path: String,
    /// The scan of the directory.
    pub scan: BreadthFirstDirectoryIter,
    /// What was counted so far.
    pub statistics: DirectoryStatistics,
}

impl DirectorySizeScan {
    /// Whether the size scan's parts are consistent.
    pub open spec fn well_formed(&self) -> bool {
        self.scan.well_formed()
    }

    /// Whether `response` can resume this size scan.
    pub open spec fn accepts(&self, response: crate::requests::FsResponse) -> bool {
        self.scan.accepts(response)
    }

    /// Whether the step of the size scan, its scan and its statistics are those of the
    /// collection `outcome` over the scan of its directory.
    pub open spec fn stepped_as(
        &self,
        outcome: (DirectoryScanView, DirectoryStatistics, MachineStep<Result<DirectoryStatistics, DirectoryScanError>>),
        step: MachineStep<Result<u64, DirectorySizeScanError>>,
    ) -> bool {
        &&& self.scan.view_state() == outcome.0
        &&& self.statistics == outcome.1
        &&& step == size_step(self.directory_path, outcome.2)
    }

    /// Whether `response` can resume this size scan.
    pub fn can_accept(&self, response: &crate::requests::FsResponse) -> (r: bool)
        ensures
            r == self.accepts(*response),
    {
        self.scan.can_accept(response)
    }

    /// Resumes the size scan with the response to its scan's pending request.
    pub fn resume(&mut self, response: crate::requests::FsResponse) -> (r: MachineStep<Result<u64, DirectorySizeScanError>>)
        requires
            old(self).well_formed(),
            old(self).accepts(response),
        ensures
            final(self).well_formed(),
            final(self).directory_path == old(self).directory_path,
            final(self).stepped_as(
                {
                    let (v, step) = old(self).scan.view_state().next(response);
                    collect_after(v, old(self).statistics, step)
                },
                r,
            ),
    {
        let step = self.scan.resume(response);
        let collected = collect_statistics_after(&mut self.scan, &mut self.statistics, step);
        self.size_step_of(collected)
    }

    /// The size step of a collection step.
    fn size_step_of(&self, step: MachineStep<Result<DirectoryStatistics, DirectoryScanError>>) -> (r: MachineStep<
        Result<u64, DirectorySizeScanError>,
    >)
        ensures
            r == size_step(self.directory_path, step),
    {
        match step {
            MachineStep::Perform(request) => MachineStep::Perform(request),
            MachineStep::Finished(Ok(stats)) => MachineStep::Finished(Ok(stats.total_bytes)),
            MachineStep::Finished(Err(error)) => MachineStep::Finished(Err(DirectorySizeScanError::ScanError {
                error,
                directory_path: self.directory_path.clone(),
            })),
        }
    }
}

/// Starts computing the size of the directory at `directory_path`, in bytes.
pub fn directory_size_in_bytes(directory_path: String) -> (r: (DirectorySizeScan, MachineStep<Result<u64, DirectorySizeScanError>>))
    ensures
        r.0.well_formed(),
        r.0.directory_path == directory_path,
        r.0.stepped_as(collect(BreadthFirstDirectoryIter::initial(directory_path, totals_scan_options()), no_statistics()), r.1),
{
    let options = DirectoryScanOptionsV2 {
        yield_base_directory: true,
        maximum_scan_depth: DirectoryScanDepthLimit::Unlimited,
        follow_symbolic_links: false,
        follow_base_directory_symbolic_link: true,
    };
    let mut size_scan = DirectorySizeScan {
        directory_path: directory_path.clone(),
        scan: BreadthFirstDirectoryIter::new(directory_path, options),
        statistics: DirectoryStatistics { total_bytes: 0, total_files: 0, total_symlinks: 0, total_directories: 0 },
    };
    let collected = collect_statistics(&mut size_scan.scan, &mut size_scan.statistics);
    let step = size_scan.size_step_of(collected);
    (size_scan, step)
}

} // verus!
