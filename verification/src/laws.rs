//! Properties of the library's operations that span their steps.
use vstd::prelude::*;

use crate::directory::{
    descends_into, one_level_deeper, optional, optional_scan, EntryOutcome, LinkView, OperationView, CopyPreparationStage, CopyPreparationStageView, CopyPreparationStepView, CollisionCheck, CopyPlanner,
    DirectoryCopyDepthLimit, DirectoryCopyExecution, DirectoryCopyInternalProgress, DirectoryCopyPreparation,
    PhaseView, PlannerStepView, PlannerView, ScanView,
};
use crate::file::{CollidingFileBehaviour, FileTransfer, FileTransferPhase, TransferOutcome};
use crate::directory::{
    initial_execution, operation_target, rejoined_path, removal_path, CopyProgressSettings, DestinationDirectoryRule,
    DirectoryMove, DirectoryMovePhase, DirectoryMoveProgress, DirectoryScanView, QueuedOperation,
};
use crate::directory::{
    DirectoryMoveFinished, DestinationDirectoryState, PendingTreeDirectory, TreeEntryOutcome,
    TreeScanView,
};
use crate::requests::DirectoryEntryInfo;
use crate::error::MoveDirectoryError;
use crate::requests::FsRequest;
use crate::error::DirectoryScanError;
use crate::path::{
    lemma_components_of_joined, lemma_components_tail_normal, path_join, path_strip_prefix, pieces, normal_pieces,
    has_no_separator, is_normal_piece,
    joined_pieces, lemma_components_shape, lemma_join_extends_base, lemma_joined_pieces_starts_with_first,
    path_components, path_is_absolute, path_starts_with, paths_equal, render_components, root_component,
};
use crate::requests::{existence_of, is_inspection, listing_view, EntryView, FsResponse, IoFailure, MachineStep};

verus! {

/// A file copy or move only gets to write onto a destination that exists when it was asked
/// to overwrite existing files.
pub proof fn law_existing_destination_is_written_only_when_overwriting(transfer: FileTransfer, response: FsResponse)
    requires
        !(transfer.phase is AwaitTransfer),
        transfer.next(response).0.phase matches FileTransferPhase::AwaitTransfer { destination_existed: true, .. },
    ensures
        transfer.colliding_file_behaviour == CollidingFileBehaviour::Overwrite,
{
}

/// A file copy or move is skipped only when it was asked to skip existing destinations.
pub proof fn law_transfer_is_skipped_only_when_skipping(transfer: FileTransfer, response: FsResponse)
    requires
        transfer.next(response).1 == MachineStep::<Result<TransferOutcome, crate::error::FileError>>::Finished(
            Ok(TransferOutcome::Skipped),
        ),
    ensures
        transfer.colliding_file_behaviour == CollidingFileBehaviour::Skip,
{
}

/// A file is never copied or moved onto itself: when the destination exists, the transfer
/// only starts if its canonical path differs from the source's.
pub proof fn law_file_is_never_transferred_onto_itself(transfer: FileTransfer, response: FsResponse)
    requires
        !(transfer.phase is AwaitTransfer),
        transfer.next(response).0.phase matches FileTransferPhase::AwaitTransfer { destination_existed: true, .. },
    ensures
        transfer.next(response).0.phase matches FileTransferPhase::AwaitTransfer { canonical_source, destination, .. }
            && !paths_equal(canonical_source@, destination@),
{
}

/// A collision check succeeds only once the last of its paths was reported missing.
pub proof fn law_collision_check_succeeds_only_after_every_path(check: CollisionCheck, response: FsResponse)
    requires
        check.well_formed(),
        check.accepts(response),
        check.next(response).1 == PlannerStepView::Finished(Ok(())),
    ensures
        check.view_state().checked + 1 == check.view_state().targets.len(),
        response matches FsResponse::Metadata(m) && existence_of(m) == Ok::<bool, std::io::Error>(false),
{
}

/// Preparing a directory copy only inspects the filesystem: until the preparation has
/// finished, the destination is left untouched.
pub proof fn law_copy_preparation_only_inspects(preparation: DirectoryCopyPreparation, response: FsResponse)
    ensures
        preparation.next(response).1 matches CopyPreparationStepView::Perform(r) ==> is_inspection(r),
{
    match preparation.stage {
        CopyPreparationStage::ValidatingDestination { source, validation } => {
            match validation.next(response).1 {
                MachineStep::Finished(Ok(destination)) => {
                    crate::directory::CopyPlanPreparation::lemma_initial_only_inspects(
                        source,
                        destination,
                        preparation.destination_directory_rule,
                        preparation.copy_depth_limit,
                        preparation.symlink_behaviour,
                        preparation.broken_symlink_behaviour,
                    );
                },
                _ => {},
            }
        },
        CopyPreparationStage::Planning(p) => {
            p.lemma_next_only_inspects(response);
        },
        _ => {},
    }
}

/// How many operations a directory copy has started.
pub open spec fn started_operations(progress: DirectoryCopyInternalProgress) -> int {
    match progress.current_operation_index {
        Some(index) => index + 1,
        None => 0,
    }
}

/// A directory copy starts at most one operation per step, and each report it asks for has a
/// current operation to report.
pub proof fn law_copy_execution_starts_one_operation_at_a_time(execution: DirectoryCopyExecution, response: FsResponse)
    requires
        execution.well_formed(),
        execution.accepts(response),
    ensures
        started_operations(execution.next(response).0.progress) == started_operations(execution.progress)
            || started_operations(execution.next(response).0.progress) == started_operations(execution.progress) + 1,
        execution.next(response).1 ==> execution.next(response).0.progress.current_operation is Some,
{
}

/// Whether a planner state schedules no directory deeper than the depth limit.
pub open spec fn scans_within_limit(state: PlannerView, limit: DirectoryCopyDepthLimit) -> bool {
    &&& forall|i: int| 0 <= i < state.scans.len() ==> scan_within_limit(#[trigger] state.scans[i], limit)
    &&& match state.phase {
        PhaseView::AwaitListing { scan } => scan_within_limit(scan, limit),
        PhaseView::AwaitLink { scan, .. } => scan_within_limit(scan, limit),
        _ => true,
    }
}

/// Whether a scheduled directory is within the depth limit.
pub open spec fn scan_within_limit(scan: ScanView, limit: DirectoryCopyDepthLimit) -> bool {
    match limit {
        DirectoryCopyDepthLimit::Unlimited => true,
        DirectoryCopyDepthLimit::Limited { maximum_depth } => scan.depth <= maximum_depth,
    }
}

/// Processing a listing of a directory within the depth limit schedules no directory
/// below it.
proof fn lemma_drain_respects_depth_limit(
    planner: CopyPlanner,
    queue: Seq<OperationView>,
    scans: Seq<ScanView>,
    scan: ScanView,
    remaining: Seq<Result<EntryView, IoFailure>>,
)
    requires
        forall|i: int| 0 <= i < scans.len() ==> scan_within_limit(#[trigger] scans[i], planner.depth_limit()),
        scan_within_limit(scan, planner.depth_limit()),
    ensures
        scans_within_limit(planner.drain(queue, scans, scan, remaining).0, planner.depth_limit()),
    decreases remaining.len(),
{
    if remaining.len() > 0 {
        match planner.entry_outcome(scan, remaining.last()) {
            EntryOutcome::Queue(op, next_scan) => {
                let more = scans + optional_scan(next_scan);
                assert forall|i: int| 0 <= i < more.len() implies scan_within_limit(#[trigger] more[i], planner.depth_limit()) by {
                    if i >= scans.len() {
                        assert(more[i] == next_scan->Some_0);
                    }
                }
                lemma_drain_respects_depth_limit(planner, queue + optional(op), more, scan, remaining.drop_last());
            },
            _ => {},
        }
    }
}

/// A copy plan never schedules a directory for reading below the depth limit.
pub proof fn law_plan_respects_depth_limit(planner: CopyPlanner, response: FsResponse)
    requires
        scans_within_limit(planner.state(), planner.depth_limit()),
    ensures
        scans_within_limit(planner.next(response).0, planner.depth_limit()),
{
    let v = planner.state();
    let limit = planner.depth_limit();
    match (v.phase, response) {
        (PhaseView::AwaitListing { scan }, FsResponse::Listing(Ok(entries))) => {
            lemma_drain_respects_depth_limit(planner, v.queue, v.scans, scan, listing_view(entries@).reverse());
        },
        (PhaseView::AwaitLink { scan, remaining, link: LinkView::AwaitBrokenLinkSize { destination, target, .. } }, FsResponse::Metadata(Ok(meta))) => {
            lemma_drain_respects_depth_limit(
                planner,
                v.queue.push(OperationView::CreateSymlink { link: destination, target, size: meta.len }),
                v.scans,
                scan,
                remaining,
            );
        },
        (PhaseView::AwaitLink { scan, remaining, link: LinkView::AwaitTargetMetadata { entry, destination, unfollowed, target } }, FsResponse::Metadata(Ok(meta))) => {
            let (op, next_scan) = planner.resolved_link_outcome(scan, entry, destination, unfollowed, target, meta);
            let more = v.scans + optional_scan(next_scan);
            assert forall|i: int| 0 <= i < more.len() implies scan_within_limit(#[trigger] more[i], limit) by {
                if i >= v.scans.len() {
                    assert(more[i] == next_scan->Some_0);
                } else {
                    assert(more[i] == v.scans[i]);
                }
            }
            lemma_drain_respects_depth_limit(planner, v.queue + optional(op), more, scan, remaining);
        },
        _ => {},
    }
}

/// A path rejoined onto a target root lies under that root: whenever the rejoining
/// succeeds, the components of the target root lead those of the result. (An absolute
/// sub-path taken relative to a base path that has no components at all is the one case
/// where the rejoined path is that sub-path itself.)
pub proof fn law_rejoined_path_lies_under_target(
    source_base_directory_path: Seq<char>,
    source_sub_path: Seq<char>,
    target_base_directory_path: Seq<char>,
)
    requires
        path_components(source_base_directory_path).len() > 0 || !path_is_absolute(source_sub_path),
    ensures
        rejoined_path(source_base_directory_path, source_sub_path, target_base_directory_path) matches Ok(p)
            ==> path_starts_with(p, target_base_directory_path),
{
    let base = source_base_directory_path;
    let sub = source_sub_path;
    let target = target_base_directory_path;
    if paths_equal(base, sub) {
        assert(path_components(target).is_prefix_of(path_components(target)));
    } else if path_starts_with(sub, base) {
        let k = path_components(base).len();
        let cs = path_components(sub).skip(k as int);
        let relative = render_components(cs);
        lemma_components_shape(sub);
        if cs.len() == 0 {
            assert(relative =~= Seq::<char>::empty());
        } else {
            assert(cs[0] == path_components(sub)[k as int]);
            if cs[0] == root_component() {
                assert(root_component()[0] == '/');
                assert(false);
            }
            assert(relative == joined_pieces(cs));
            lemma_joined_pieces_starts_with_first(cs);
            assert(cs[0][0] != '/');
        }
        lemma_join_extends_base(target, relative);
    }
}

/// Whether a scan step reports a symbolic link cycle.
pub open spec fn reports_cycle(step: MachineStep<Option<Result<crate::directory::ScanEntry, DirectoryScanError>>>) -> bool {
    step matches MachineStep::Finished(Some(Err(DirectoryScanError::SymlinkCycleEncountered { .. })))
}

/// A scan that does not detect symbolic link cycles never records an ancestor and never
/// reports a cycle, whatever it is asked or told.
pub proof fn law_scan_without_cycle_detection_reports_no_cycle(scan: DirectoryScanView, response: FsResponse)
    requires
        !scan.detects_cycles,
        scan.ancestors.len() == 0,
    ensures
        !scan.next(response).0.detects_cycles,
        scan.next(response).0.ancestors.len() == 0,
        !reports_cycle(scan.next(response).1),
        !scan.advance().0.detects_cycles,
        scan.advance().0.ancestors.len() == 0,
        !reports_cycle(scan.advance().1),
{
}

/// Whether `request` creates a directory or a symbolic link exactly as `operation` plans it.
pub open spec fn creates_as_planned(request: FsRequest, operation: QueuedOperation) -> bool {
    match request {
        FsRequest::CreateDirectory { path } => operation is CreateDirectory && path == operation_target(operation),
        FsRequest::CreateDirectoryAll { path } => operation is CreateDirectory && path == operation_target(operation),
        FsRequest::CreateSymlink { link_path, target_path } => operation matches QueuedOperation::CreateSymlink {
            symlink_path,
            symlink_destination_path,
            ..
        } && link_path == symlink_path && target_path == symlink_destination_path,
        _ => true,
    }
}

/// A directory copy follows its plan: it never goes back to an earlier operation, the plan
/// itself never changes, and every directory or symbolic link it asks to create is the one
/// the operation it stands at plans, at that operation's path.
pub proof fn law_copy_execution_follows_its_plan(execution: DirectoryCopyExecution, response: FsResponse)
    requires
        execution.well_formed(),
        execution.accepts(response),
    ensures
        execution.next(response).0.operations == execution.operations,
        execution.next(response).0.next_index >= execution.next_index,
        execution.next(response).2 matches MachineStep::Perform(request) ==> execution.next(response).0.next_index
            < execution.operations.len() && creates_as_planned(request, execution.next(response).0.current()),
{
}

/// Whether a copy preparation, if it is planning, plans a copy into a destination that does
/// not lie inside the source.
pub open spec fn plans_outside_source(stage: CopyPreparationStageView) -> bool {
    stage matches CopyPreparationStageView::Planning(plan) ==> !path_starts_with(
        plan.settings.destination_root,
        plan.settings.source_root,
    )
}

/// A directory is never copied into itself: a copy preparation only gets to plan once the
/// (canonical) destination was found not to lie inside the (canonical) source, and planning
/// keeps it so.
pub proof fn law_copy_never_plans_into_its_own_source(preparation: DirectoryCopyPreparation, response: FsResponse)
    requires
        plans_outside_source(preparation.stage_view()),
    ensures
        plans_outside_source(preparation.next(response).0),
{
    match preparation.stage {
        CopyPreparationStage::Planning(p) => {
            p.lemma_next_keeps_settings(response);
        },
        _ => {},
    }
}

/// The number of file copies among `operations`.
pub open spec fn file_copies(operations: Seq<QueuedOperation>) -> nat
    decreases operations.len(),
{
    if operations.len() == 0 {
        0
    } else {
        file_copies(operations.drop_last()) + if operations.last() is CopyFile { 1nat } else { 0nat }
    }
}

/// The number of symbolic link creations among `operations`.
pub open spec fn link_creations(operations: Seq<QueuedOperation>) -> nat
    decreases operations.len(),
{
    if operations.len() == 0 {
        0
    } else {
        link_creations(operations.drop_last()) + if operations.last() is CreateSymlink { 1nat } else { 0nat }
    }
}

/// Whether a directory copy has counted exactly the file copies and link creations of the
/// operations before the one it stands at.
pub open spec fn counts_what_it_did(execution: DirectoryCopyExecution) -> bool {
    let done = execution.operations@.take(execution.next_index as int);
    &&& execution.progress.files_copied == file_copies(done)
    &&& execution.progress.symlinks_created == link_creations(done)
}

/// A directory copy counts each file it copies and each symbolic link it creates exactly
/// once, in the order of its plan; so when it finishes successfully, its summary reports as
/// many copied files and created links as the plan holds.
pub proof fn law_copy_counts_every_planned_file_and_link_once(execution: DirectoryCopyExecution, response: FsResponse)
    requires
        execution.well_formed(),
        execution.accepts(response),
        counts_what_it_did(execution),
    ensures
        counts_what_it_did(execution.next(response).0),
        execution.next(response).2 matches MachineStep::Finished(Ok(summary)) ==> summary.files_copied == file_copies(
            execution.operations@,
        ) && summary.symlinks_created == link_creations(execution.operations@),
{
    let ops = execution.operations@;
    let n = execution.next_index as int;
    if n < ops.len() {
        assert(ops.take(n + 1).drop_last() =~= ops.take(n));
        assert(ops.take(n + 1).last() == ops[n]);
    }
    assert(ops.take(ops.len() as int) =~= ops);
}

/// A directory copy starts with nothing counted, at the first operation of its plan (and an
/// empty plan finishes at once with nothing copied).
pub proof fn law_copy_starts_with_nothing_counted(
    operations: Vec<QueuedOperation>,
    total_bytes: u64,
    rule: DestinationDirectoryRule,
    progress_settings: Option<CopyProgressSettings>,
)
    ensures
        counts_what_it_did(initial_execution(operations, total_bytes, rule, progress_settings).start_at(0).0),
        initial_execution(operations, total_bytes, rule, progress_settings).start_at(0).2 matches MachineStep::Finished(
            Ok(summary),
        ) ==> summary.files_copied == file_copies(operations@) && summary.symlinks_created == link_creations(
            operations@,
        ),
{
    assert(operations@.take(0) =~= Seq::<QueuedOperation>::empty());
    if operations@.len() == 0 {
        assert(operations@ =~= Seq::<QueuedOperation>::empty());
    }
}

/// A directory move renames its source only when renaming is allowed and the destination
/// did not exist or was empty; it then renames the source path as given onto the
/// (canonical) destination path.
pub proof fn law_move_renames_only_onto_a_missing_or_empty_destination(
    mv: DirectoryMove,
    response: FsResponse,
    next: DirectoryMove,
    report: Option<DirectoryMoveProgress>,
    step: MachineStep<Result<DirectoryMoveFinished, MoveDirectoryError>>,
)
    requires
        mv.accepts(response),
        mv.resumes_to(response, next, report, step),
    ensures
        next.phase matches DirectoryMovePhase::AwaitRename { source, destination, .. } ==> {
            &&& mv.settings.may_rename
            &&& destination.state == DestinationDirectoryState::DoesNotExist
                || destination.state == DestinationDirectoryState::IsEmpty
            &&& step == MachineStep::<Result<DirectoryMoveFinished, MoveDirectoryError>>::Perform(FsRequest::Rename {
                from: source.unfollowed_directory_path,
                to: destination.directory_path,
            })
        },
{
}

/// A directory move removes its source only once the source was copied: the move gets to
/// the removal straight from its copy (or from planning, when the copy had nothing to do),
/// carries the copy's summary, and asks to remove exactly the source path as given (the
/// symbolic link, when the source was one).
pub proof fn law_move_removes_its_source_only_after_copying_it(
    mv: DirectoryMove,
    response: FsResponse,
    next: DirectoryMove,
    report: Option<DirectoryMoveProgress>,
    step: MachineStep<Result<DirectoryMoveFinished, MoveDirectoryError>>,
)
    requires
        mv.accepts(response),
        mv.resumes_to(response, next, report, step),
        !(mv.phase is RemovingSource),
    ensures
        next.phase matches DirectoryMovePhase::RemovingSource { source, copied, .. } ==> {
            &&& mv.phase is Copying || mv.phase is Planning
            &&& step == MachineStep::<Result<DirectoryMoveFinished, MoveDirectoryError>>::Perform(
                FsRequest::RemoveDirectoryAll { path: removal_path(source) },
            )
            &&& mv.phase matches DirectoryMovePhase::Copying { execution, .. } ==> execution.next(response).2
                == MachineStep::<Result<crate::directory::DirectoryCopyFinished, crate::error::CopyDirectoryExecutionError>>::Finished(Ok(copied))
        },
{
}

/// Processing a listing in an unlimited scan that covers everything so far leaves nothing out.
proof fn lemma_unlimited_drain_leaves_nothing_out(
    scan: TreeScanView,
    directory: PendingTreeDirectory,
    remaining: Seq<Result<DirectoryEntryInfo, IoFailure>>,
)
    requires
        scan.options.maximum_scan_depth is Unlimited,
        scan.covers,
    ensures
        scan.drain(directory, remaining).0.covers,
        scan.drain(directory, remaining).0.options == scan.options,
    decreases remaining.len(),
{
    if remaining.len() > 0 {
        match scan.entry_outcome(directory, remaining.last()) {
            TreeEntryOutcome::Record { file, directory: d, scan: queued } => {
                lemma_unlimited_drain_leaves_nothing_out(
                    scan.record(file, d, queued),
                    directory,
                    remaining.drop_last(),
                );
            },
            _ => {},
        }
    }
}

/// A complete scan without a depth limit covers the entire directory tree: it never notes
/// that something was left out.
pub proof fn law_unlimited_scan_covers_the_entire_tree(scan: TreeScanView, response: FsResponse)
    requires
        scan.options.maximum_scan_depth is Unlimited,
        scan.covers,
    ensures
        scan.next(response).0.covers,
        scan.next(response).0.options == scan.options,
{
    match (scan.phase, response) {
        (crate::directory::TreePhaseView::AwaitListing { directory }, FsResponse::Listing(Ok(entries))) => {
            lemma_unlimited_drain_leaves_nothing_out(scan, directory, entries@.reverse());
        },
        (
            crate::directory::TreePhaseView::AwaitLinkTargetMetadata { directory, link_path, resolved, remaining },
            FsResponse::Metadata(m),
        ) => {
            lemma_unlimited_drain_leaves_nothing_out(scan, directory, remaining);
            if m is Ok {
                match scan.link_outcome(directory, link_path, resolved, m->Ok_0) {
                    TreeEntryOutcome::Record { file, directory: d, scan: queued } => {
                        lemma_unlimited_drain_leaves_nothing_out(
                            scan.record(file, d, queued),
                            directory,
                            remaining,
                        );
                    },
                    _ => {},
                }
            }
        },
        _ => {},
    }
}

/// Once a breadth-first scan has yielded nothing, it is over: it stays over, and every later
/// request for an item yields nothing again.
pub proof fn law_scan_ends_for_good(scan: DirectoryScanView, response: FsResponse)
    ensures
        scan.exhausted ==> scan.advance() == (
            DirectoryScanView { phase: crate::directory::ScanPhase::Idle, ..scan },
            MachineStep::<Option<Result<crate::directory::ScanEntry, DirectoryScanError>>>::Finished(None),
        ),
        scan.exhausted ==> scan.next(response).0.exhausted,
        scan.advance().1 == MachineStep::<Option<Result<crate::directory::ScanEntry, DirectoryScanError>>>::Finished(None)
            ==> scan.advance().0.exhausted,
        scan.next(response).1 == MachineStep::<Option<Result<crate::directory::ScanEntry, DirectoryScanError>>>::Finished(None)
            ==> scan.next(response).0.exhausted,
{
}

/// Processing a listing never changes whether a complete scan covers the tree.
proof fn lemma_drain_keeps_cover(
    scan: TreeScanView,
    directory: PendingTreeDirectory,
    remaining: Seq<Result<DirectoryEntryInfo, IoFailure>>,
)
    ensures
        scan.drain(directory, remaining).0.covers == scan.covers,
        scan.drain(directory, remaining).0.options == scan.options,
    decreases remaining.len(),
{
    if remaining.len() > 0 {
        match scan.entry_outcome(directory, remaining.last()) {
            TreeEntryOutcome::Record { file, directory: d, scan: queued } => {
                lemma_drain_keeps_cover(scan.record(file, d, queued), directory, remaining.drop_last());
            },
            _ => {},
        }
    }
}

/// A complete scan stops covering the entire tree only when it looks into a directory below
/// the depth limit and finds something there (or cannot read it).
pub proof fn law_scan_stops_covering_only_when_something_is_left_out(scan: TreeScanView, response: FsResponse)
    ensures
        scan.covers && !scan.next(response).0.covers ==> (scan.phase matches crate::directory::TreePhaseView::AwaitListing {
            directory,
        } && scan.beyond_limit(directory) && !(response matches FsResponse::Listing(Ok(entries)) && entries@.len() == 0)),
{
    match (scan.phase, response) {
        (crate::directory::TreePhaseView::AwaitListing { directory }, FsResponse::Listing(Ok(entries))) => {
            lemma_drain_keeps_cover(scan, directory, entries@.reverse());
        },
        (
            crate::directory::TreePhaseView::AwaitLinkTargetMetadata { directory, link_path, resolved, remaining },
            FsResponse::Metadata(m),
        ) => {
            lemma_drain_keeps_cover(scan, directory, remaining);
            if m is Ok {
                match scan.link_outcome(directory, link_path, resolved, m->Ok_0) {
                    TreeEntryOutcome::Record { file, directory: d, scan: queued } => {
                        lemma_drain_keeps_cover(scan.record(file, d, queued), directory, remaining);
                    },
                    _ => {},
                }
            }
        },
        _ => {},
    }
}

/// Whether every component is a normal one (no root, no `.`), without a separator.
pub open spec fn plain_components(cs: Seq<Seq<char>>) -> bool {
    forall|i: int| 0 <= i < cs.len() ==> is_normal_piece(#[trigger] cs[i]) && has_no_separator(cs[i])
}

/// The components of a path rejoined onto a target root: the target root's, then those of
/// the sub-path below the base. (A base without components leaves a root or a leading `.`
/// of the sub-path in place, so there the sub-path has only normal components.)
pub proof fn lemma_rejoined_components(
    source_base_directory_path: Seq<char>,
    source_sub_path: Seq<char>,
    target_base_directory_path: Seq<char>,
)
    requires
        path_components(source_base_directory_path).len() > 0 || plain_components(path_components(source_sub_path)),
    ensures
        rejoined_path(source_base_directory_path, source_sub_path, target_base_directory_path) matches Ok(p)
            ==> path_starts_with(source_sub_path, source_base_directory_path) && path_components(p) == path_components(
            target_base_directory_path,
        ) + path_components(source_sub_path).skip(path_components(source_base_directory_path).len() as int),
{
    let base = source_base_directory_path;
    let sub = source_sub_path;
    let target = target_base_directory_path;
    let k = path_components(base).len() as int;
    if paths_equal(base, sub) {
        assert(path_components(sub).skip(k) =~= Seq::<Seq<char>>::empty());
        assert(path_components(target) + Seq::<Seq<char>>::empty() =~= path_components(target));
        assert(path_components(base).is_prefix_of(path_components(sub)));
    } else if path_starts_with(sub, base) {
        let cs = path_components(sub).skip(k);
        lemma_components_tail_normal(sub);
        assert forall|i: int| 0 <= i < cs.len() implies is_normal_piece(#[trigger] cs[i]) && has_no_separator(cs[i]) by {
            assert(cs[i] == path_components(sub)[i + k]);
            if k == 0 {
                assert(plain_components(path_components(sub)));
            }
        }
        if cs.len() > 0 {
            assert(cs[0] != root_component()) by {
                assert(has_no_separator(cs[0]));
                if cs[0] == root_component() {
                    assert(cs[0][0] == '/');
                }
            }
        }
        let relative = render_components(cs);
        assert(relative == joined_pieces(cs));
        lemma_components_of_joined(cs);
        lemma_join_extends_base(target, relative);
        if target.len() == 0 {
            assert(path_join(target, relative) == relative);
            assert(pieces(target) =~= seq![Seq::<char>::empty()]);
            assert(pieces(target).drop_last() =~= Seq::<Seq<char>>::empty());
            assert(normal_pieces(Seq::<Seq<char>>::empty()) =~= Seq::<Seq<char>>::empty());
            assert(normal_pieces(pieces(target)) =~= Seq::<Seq<char>>::empty());
            assert(path_components(target) =~= Seq::<Seq<char>>::empty());
            assert(path_components(target) + cs =~= cs);
        }
    }
}

/// Rejoining is undone by rejoining back: a sub-path of the base, rejoined onto a target root
/// and then rejoined from that target root back onto the base, is the same path again (the
/// same components). It holds whenever the base has a component; with a base without
/// components, it holds when the sub-path has only normal components (rejoining would
/// otherwise keep a root or a leading `.` of the sub-path that rejoining back drops).
pub proof fn law_rejoining_back_gives_the_sub_path_again(
    source_base_directory_path: Seq<char>,
    source_sub_path: Seq<char>,
    target_base_directory_path: Seq<char>,
)
    requires
        path_components(source_base_directory_path).len() > 0 || plain_components(path_components(source_sub_path)),
    ensures
        rejoined_path(source_base_directory_path, source_sub_path, target_base_directory_path) is Ok
            <==> path_starts_with(source_sub_path, source_base_directory_path),
        rejoined_path(source_base_directory_path, source_sub_path, target_base_directory_path) matches Ok(p)
            ==> (rejoined_path(target_base_directory_path, p, source_base_directory_path) matches Ok(q) && paths_equal(
            q,
            source_sub_path,
        )),
{
    let base = source_base_directory_path;
    let sub = source_sub_path;
    let target = target_base_directory_path;
    let k = path_components(base).len() as int;
    if paths_equal(base, sub) {
        assert(path_components(base).is_prefix_of(path_components(sub)));
    }
    lemma_rejoined_components(base, sub, target);
    if let Ok(p) = rejoined_path(base, sub, target) {
        let t = path_components(sub).skip(k);
        assert(path_components(sub) =~= path_components(base) + t);
        lemma_components_tail_normal(sub);
        assert(plain_components(t)) by {
            assert forall|i: int| 0 <= i < t.len() implies is_normal_piece(#[trigger] t[i]) && has_no_separator(t[i]) by {
                assert(t[i] == path_components(sub)[i + k]);
                if k == 0 {
                    assert(plain_components(path_components(sub)));
                }
            }
        }
        if path_components(target).len() == 0 {
            assert(path_components(p) =~= t);
        }
        lemma_rejoined_components(target, p, base);
        if t.len() == 0 {
            assert(path_components(p) =~= path_components(target));
            assert(paths_equal(target, p));
            assert(path_components(sub) =~= path_components(base));
        } else {
            assert(!paths_equal(target, p)) by {
                assert(path_components(p).len() > path_components(target).len());
            }
            assert(path_components(target).is_prefix_of(path_components(p))) by {
                assert(path_components(p).subrange(0, path_components(target).len() as int) =~= path_components(target));
            }
            assert(path_components(p).skip(path_components(target).len() as int) =~= t);
            assert(path_strip_prefix(p, target) is Some);
        }
    }
}

/// The level of a scan depth: `0` for the base directory, one more for each level below it.
pub open spec fn level(depth: crate::directory::ScanEntryDepth) -> int {
    match depth {
        crate::directory::ScanEntryDepth::BaseDirectory => 0,
        crate::directory::ScanEntryDepth::AtDepth { depth } => depth + 1,
    }
}

/// Whether every directory of `pending` lies at level `current` or one below it.
pub open spec fn within_level(pending: Seq<crate::directory::PendingDirectory>, current: int) -> bool {
    forall|i: int| 0 <= i < pending.len() ==> current <= #[trigger] level(pending[i].directory_depth) <= current + 1
}

/// Whether a breadth-first scan reads its directories level by level: the directories
/// waiting to be read are ordered by level and span at most two adjacent levels, the first
/// of which is that of the directory being read (when one is).
pub open spec fn scan_in_level_order(scan: DirectoryScanView) -> bool {
    &&& forall|i: int, j: int|
        0 <= i <= j < scan.pending.len() ==> level(#[trigger] scan.pending[i].directory_depth) <= level(
            #[trigger] scan.pending[j].directory_depth,
        )
    &&& scan.pending.len() > 0 ==> level(scan.pending.last().directory_depth) <= level(scan.pending[0].directory_depth) + 1
    &&& scan.open matches Some(o) ==> within_level(scan.pending, level(o.directory_depth))
    &&& scan.phase matches crate::directory::ScanPhase::AwaitListing { directory, .. } ==> within_level(
        scan.pending,
        level(directory.directory_depth),
    )
    &&& !scan.has_scanned_base_directory ==> scan.pending.len() == 0 && scan.open is None
    &&& scan.phase matches crate::directory::ScanPhase::AwaitListing { is_base, .. } ==> is_base
        || scan.has_scanned_base_directory
    &&& (scan.phase is AwaitEntryLinkTarget || scan.phase is AwaitEntryLinkTargetMetadata) ==> scan.open is Some
}

/// Yielding an entry of the open directory keeps the scan in level order.
proof fn lemma_emit_in_level_order(scan: DirectoryScanView, path: String, metadata: crate::requests::EntryMetadata)
    requires
        scan_in_level_order(scan),
        scan.open is Some,
    ensures
        scan_in_level_order(scan.emit(path, metadata).0),
{
    let o = scan.open->Some_0;
    let depth = crate::directory::deeper(o.directory_depth);
    let p = scan.pending;
    let cur = level(o.directory_depth);
    assert(cur <= level(depth) <= cur + 1);
    assert(level(depth) <= usize::MAX + 1);
    let p2 = p.push(crate::directory::PendingDirectory { directory_path: path, directory_depth: depth });
    assert forall|i: int, j: int| 0 <= i <= j < p2.len() implies level(#[trigger] p2[i].directory_depth) <= level(
        #[trigger] p2[j].directory_depth,
    ) by {
        if j == p.len() {
            if i < p.len() {
                assert(p2[i] == p[i]);
                assert(cur <= level(p[i].directory_depth) <= cur + 1);
                assert(level(p[i].directory_depth) <= usize::MAX + 1);
            }
        } else {
            assert(p2[i] == p[i] && p2[j] == p[j]);
        }
    }
    assert forall|i: int| 0 <= i < p2.len() implies cur <= #[trigger] level(p2[i].directory_depth) <= cur + 1 by {
        if i < p.len() {
            assert(p2[i] == p[i]);
        }
    }
    if p.len() > 0 {
        assert(p2[0] == p[0]);
        assert(cur <= level(p[0].directory_depth));
    }
}

/// Moving on from where the scan stands keeps it in level order.
proof fn lemma_continue_in_level_order(scan: DirectoryScanView)
    requires
        scan_in_level_order(scan),
    ensures
        scan_in_level_order(scan.continue_scan().0),
{
    let p = scan.pending;
    let closed = DirectoryScanView { open: None, ..scan };
    if p.len() > 0 {
        let p2 = p.drop_first();
        assert forall|i: int| 0 <= i < p2.len() implies level(p[0].directory_depth) <= #[trigger] level(p2[i].directory_depth)
            <= level(p[0].directory_depth) + 1 by {
            assert(p2[i] == p[i + 1]);
            assert(level(p[0].directory_depth) <= level(p[i + 1].directory_depth));
            assert(level(p[i + 1].directory_depth) <= level(p[p.len() - 1].directory_depth));
        }
        assert forall|i: int, j: int| 0 <= i <= j < p2.len() implies level(#[trigger] p2[i].directory_depth) <= level(
            #[trigger] p2[j].directory_depth,
        ) by {
            assert(p2[i] == p[i + 1] && p2[j] == p[j + 1]);
        }
        if p2.len() > 0 {
            assert(p2[0] == p[1]);
            assert(p2.last() == p.last());
            assert(level(p[0].directory_depth) <= level(p[1].directory_depth));
        }
    }
    match scan.open {
        None => {},
        Some(o) => if o.remaining.len() > 0 {
            let s = DirectoryScanView { open: Some(crate::directory::OpenView { remaining: o.remaining.drop_last(), ..o }), ..scan };
            match o.remaining.last() {
                Ok(info) => match info.metadata {
                    Ok(m) => if !(scan.options.follow_symbolic_links && m.entry_type == crate::requests::EntryType::Symlink) {
                        lemma_emit_in_level_order(s, info.path, m);
                    },
                    _ => {},
                },
                _ => {},
            }
        },
    }
}

/// A breadth-first scan reads its directories level by level: a new scan starts in level
/// order, and whatever it is asked or told, the directories waiting to be read stay ordered
/// by level, span at most two adjacent levels, and start at the level of the directory being
/// read.
pub proof fn law_scan_reads_level_by_level(scan: DirectoryScanView, response: FsResponse)
    requires
        scan_in_level_order(scan),
    ensures
        scan_in_level_order(crate::directory::BreadthFirstDirectoryIter::initial(scan.base_directory, scan.options)),
        scan_in_level_order(scan.next(response).0),
        scan.phase is Idle ==> scan_in_level_order(scan.advance().0),
{
    let fresh = crate::directory::BreadthFirstDirectoryIter::initial(scan.base_directory, scan.options);
    assert(scan_in_level_order(fresh));
    lemma_continue_in_level_order(scan);
    lemma_continue_in_level_order(DirectoryScanView { base_directory: scan.base_directory, ..scan });
    match (scan.phase, response) {
        (crate::directory::ScanPhase::AwaitBaseLinkTargetMetadata { base_metadata, destination }, _) => {
            lemma_continue_in_level_order(DirectoryScanView { base_directory: destination, ..scan });
        },
        (crate::directory::ScanPhase::AwaitListing { directory, is_base }, FsResponse::Listing(Ok(entries))) => {
            let open = crate::directory::OpenView {
                directory_path: directory.directory_path,
                directory_depth: directory.directory_depth,
                remaining: entries@.reverse(),
            };
            let ancestor = crate::directory::Ancestor { path: directory.directory_path, depth: directory.directory_depth };
            let ancestors = if !(scan.detects_cycles && scan.options.tracks_ancestors()) {
                scan.ancestors
            } else if is_base {
                scan.ancestors.push(ancestor)
            } else if scan.ancestors.len() > 0 && scan.ancestors.last().depth == directory.directory_depth {
                scan.ancestors.drop_last().push(ancestor)
            } else {
                scan.ancestors.push(ancestor)
            };
            lemma_continue_in_level_order(DirectoryScanView {
                open: Some(open),
                ancestors,
                has_scanned_base_directory: scan.has_scanned_base_directory || is_base,
                ..scan
            });
        },
        (crate::directory::ScanPhase::AwaitEntryLinkTargetMetadata { resolved }, FsResponse::Metadata(Ok(meta))) => {
            lemma_emit_in_level_order(scan, resolved, meta);
        },
        _ => {},
    }
}

/// Whether `step` yields an entry below the base directory that is a directory the scan
/// reads further (under the depth limit of `scan`), queued as `queued`.
pub open spec fn yields_directory_to_read(
    scan: DirectoryScanView,
    step: crate::requests::MachineStep<crate::directory::ScanItem>,
    queued: crate::directory::PendingDirectory,
) -> bool {
    &&& step matches crate::requests::MachineStep::Finished(Some(Ok(entry)))
    &&& entry.depth is AtDepth
    &&& entry.metadata.entry_type == crate::requests::EntryType::Directory
    &&& crate::directory::scans_below(scan.options.maximum_scan_depth, entry.depth)
    &&& queued == crate::directory::PendingDirectory { directory_path: entry.path, directory_depth: entry.depth }
}

/// A breadth-first scan leaves no directory it can reach unread: each directory below the
/// base directory that it yields within its depth limit joins the end of the queue of
/// directories to read.
pub proof fn law_scan_queues_each_directory_it_yields(
    scan: DirectoryScanView,
    response: FsResponse,
    queued: crate::directory::PendingDirectory,
)
    ensures
        yields_directory_to_read(scan, scan.next(response).1, queued) ==> scan.next(response).0.pending
            == scan.pending.push(queued),
        yields_directory_to_read(scan, scan.advance().1, queued) ==> scan.advance().0.pending == scan.pending.push(
            queued,
        ),
{
}

/// The number of entries of `entries` of the type `t`.
pub open spec fn entries_of_type(entries: Seq<crate::directory::ScanEntry>, t: crate::requests::EntryType) -> nat
    decreases entries.len(),
{
    if entries.len() == 0 {
        0
    } else {
        entries_of_type(entries.drop_last(), t) + if entries.last().metadata.entry_type == t { 1nat } else { 0nat }
    }
}

/// The sum of the metadata lengths of `entries`, whatever their types.
pub open spec fn entry_lengths(entries: Seq<crate::directory::ScanEntry>) -> nat
    decreases entries.len(),
{
    if entries.len() == 0 {
        0
    } else {
        entry_lengths(entries.drop_last()) + (entries.last().metadata.len as nat)
    }
}

/// `n`, or `limit` when `n` goes beyond it.
pub open spec fn capped(n: int, limit: int) -> int {
    if n > limit { limit } else { n }
}

/// Counting one more scanned entry adds its own metadata length to the total size (saturated
/// at `u64::MAX`), whatever its type, a symbolic link's included; and it adds one (saturated)
/// to exactly the count of its own type: files, symbolic links or directories.
pub proof fn law_each_entry_counts_its_own_size_and_type(
    stats: crate::directory::DirectoryStatistics,
    entry: crate::directory::ScanEntry,
)
    ensures
        crate::directory::with_entry(stats, entry).total_bytes == capped(stats.total_bytes + entry.metadata.len, u64::MAX as int),
        crate::directory::with_entry(stats, entry).total_files == capped(
            stats.total_files + if entry.metadata.entry_type == crate::requests::EntryType::File { 1int } else { 0int },
            usize::MAX as int,
        ),
        crate::directory::with_entry(stats, entry).total_symlinks == capped(
            stats.total_symlinks + if entry.metadata.entry_type == crate::requests::EntryType::Symlink { 1int } else { 0int },
            usize::MAX as int,
        ),
        crate::directory::with_entry(stats, entry).total_directories == capped(
            stats.total_directories + if entry.metadata.entry_type == crate::requests::EntryType::Directory { 1int } else { 0int },
            usize::MAX as int,
        ),
{
}

/// The statistics of a sequence of scanned entries, counted from nothing: the total size is
/// the (saturated) sum of every entry's own metadata length, and each count is the
/// (saturated) number of entries of its type.
pub proof fn law_statistics_sum_sizes_and_count_types(entries: Seq<crate::directory::ScanEntry>)
    ensures
        crate::directory::statistics_of(crate::directory::no_statistics(), entries).total_bytes == capped(
            entry_lengths(entries) as int,
            u64::MAX as int,
        ),
        crate::directory::statistics_of(crate::directory::no_statistics(), entries).total_files == capped(
            entries_of_type(entries, crate::requests::EntryType::File) as int,
            usize::MAX as int,
        ),
        crate::directory::statistics_of(crate::directory::no_statistics(), entries).total_symlinks == capped(
            entries_of_type(entries, crate::requests::EntryType::Symlink) as int,
            usize::MAX as int,
        ),
        crate::directory::statistics_of(crate::directory::no_statistics(), entries).total_directories == capped(
            entries_of_type(entries, crate::requests::EntryType::Directory) as int,
            usize::MAX as int,
        ),
    decreases entries.len(),
{
    if entries.len() > 0 {
        law_statistics_sum_sizes_and_count_types(entries.drop_last());
        law_each_entry_counts_its_own_size_and_type(
            crate::directory::statistics_of(crate::directory::no_statistics(), entries.drop_last()),
            entries.last(),
        );
    }
}

/// A complete scan that does not follow symbolic links records a listed link that leads to an
/// existing file among the files, and one that leads to an existing directory among the
/// directories, by the link's own path; nothing is queued for reading.
pub proof fn law_unfollowed_links_are_recorded_by_their_own_path(
    scan: TreeScanView,
    directory: PendingTreeDirectory,
    link_path: String,
    resolved: String,
    metadata: crate::requests::EntryMetadata,
    remaining: Seq<Result<DirectoryEntryInfo, IoFailure>>,
)
    requires
        !scan.options.follow_symbolic_links,
    ensures
        metadata.entry_type == crate::requests::EntryType::File ==> scan.link_outcome(directory, link_path, resolved, metadata)
            == (TreeEntryOutcome::Record { file: Some(link_path), directory: None, scan: None }),
        metadata.entry_type == crate::requests::EntryType::Directory ==> scan.link_outcome(directory, link_path, resolved, metadata)
            == (TreeEntryOutcome::Record { file: None, directory: Some(link_path), scan: None }),
        ({
            let waiting = TreeScanView {
                phase: crate::directory::TreePhaseView::AwaitLinkTargetMetadata { directory, link_path, resolved, remaining },
                ..scan
            };
            &&& metadata.entry_type == crate::requests::EntryType::File ==> waiting.next(FsResponse::Metadata(Ok(metadata)))
                == TreeScanView { files: scan.files.push(link_path), ..waiting }.drain(directory, remaining)
            &&& metadata.entry_type == crate::requests::EntryType::Directory ==> waiting.next(FsResponse::Metadata(Ok(metadata)))
                == TreeScanView { directories: scan.directories.push(link_path), ..waiting }.drain(directory, remaining)
        }),
{
    let waiting = TreeScanView {
        phase: crate::directory::TreePhaseView::AwaitLinkTargetMetadata { directory, link_path, resolved, remaining },
        ..scan
    };
    assert(scan.files + crate::directory::optional_path(Some(link_path)) =~= scan.files.push(link_path));
    assert(scan.directories + crate::directory::optional_path(Some(link_path)) =~= scan.directories.push(link_path));
    assert(scan.files + crate::directory::optional_path(None) =~= scan.files);
    assert(scan.directories + crate::directory::optional_path(None) =~= scan.directories);
    assert(scan.stack + crate::directory::optional_directory(None) =~= scan.stack);
}

/// A file move reports what it did to the destination: overwritten exactly when a file was
/// there before, created otherwise, with the bytes moved and the method used, whichever
/// method it was; a skipped move reports a skip.
pub proof fn law_file_move_reports_whether_it_overwrote(outcome: TransferOutcome)
    ensures
        outcome matches TransferOutcome::Transferred { bytes, destination_existed, method } ==> crate::file::move_finished_of(
            outcome,
        ) == if destination_existed {
            crate::file::FileMoveFinished::Overwritten { bytes_copied: bytes, method }
        } else {
            crate::file::FileMoveFinished::Created { bytes_copied: bytes, method }
        },
        outcome is Skipped ==> crate::file::move_finished_of(outcome) == crate::file::FileMoveFinished::Skipped,
{
}

/// Removing a symbolic link whose destination is a file removes the link: once the path's own
/// metadata shows a link, the removal asks for the metadata of the destination; once that
/// shows a file, it asks to remove the path; and once that succeeds, it finishes with success.
pub proof fn law_a_link_to_a_file_is_removed(
    removal: crate::file::FileRemoval,
    own: crate::requests::EntryMetadata,
    destination: crate::requests::EntryMetadata,
)
    requires
        own.entry_type == crate::requests::EntryType::Symlink,
        destination.entry_type == crate::requests::EntryType::File,
    ensures
        ({
            let asked = crate::file::FileRemoval { phase: crate::file::FileRemovalPhase::AwaitOwnMetadata, ..removal };
            let (s1, step1) = asked.next(FsResponse::Metadata(Ok(own)));
            let (s2, step2) = s1.next(FsResponse::Metadata(Ok(destination)));
            let (s3, step3) = s2.next(FsResponse::Done(Ok(())));
            &&& step1 == MachineStep::<Result<(), crate::error::FileRemoveError>>::Perform(
                FsRequest::Metadata { path: removal.file_path },
            )
            &&& step2 == MachineStep::<Result<(), crate::error::FileRemoveError>>::Perform(
                FsRequest::RemoveFile { path: removal.file_path },
            )
            &&& step3 == MachineStep::<Result<(), crate::error::FileRemoveError>>::Finished(Ok(()))
            &&& s3.file_path == removal.file_path
        }),
{
}

/// A directory moved by rename reports, as moved, everything the scan of the source counted:
/// its bytes, and its files, symbolic links and directories, each by its own count.
pub proof fn law_renamed_directory_reports_what_the_source_held(
    mv: DirectoryMove,
    next: DirectoryMove,
    report: Option<DirectoryMoveProgress>,
    step: MachineStep<Result<DirectoryMoveFinished, MoveDirectoryError>>,
)
    requires
        mv.phase matches DirectoryMovePhase::AwaitRename { .. },
        mv.resumes_to(FsResponse::Done(Ok(())), next, report, step),
    ensures
        mv.phase matches DirectoryMovePhase::AwaitRename { details, .. } ==> step == MachineStep::<
            Result<DirectoryMoveFinished, MoveDirectoryError>,
        >::Finished(Ok(DirectoryMoveFinished {
            total_bytes_moved: details.total_bytes,
            files_moved: details.total_files,
            symlinks_moved: details.total_symlinks,
            directories_moved: details.total_directories,
            strategy_used: crate::directory::DirectoryMoveStrategy::Rename,
        })),
{
}

/// A complete scan records each listed entry by its type: a file among the files and a
/// directory among the directories (queued to be read one level deeper), both by their own
/// paths; a symbolic link is resolved first. When links are followed, a link that leads to a
/// file or a directory is recorded by the path it leads to, and a directory it leads to is
/// queued as well.
pub proof fn law_scan_records_entries_by_type(
    scan: TreeScanView,
    directory: PendingTreeDirectory,
    info: DirectoryEntryInfo,
    link_path: String,
    resolved: String,
    metadata: crate::requests::EntryMetadata,
)
    ensures
        info.file_type == Ok::<crate::requests::EntryType, IoFailure>(crate::requests::EntryType::File) ==> scan.entry_outcome(
            directory,
            Ok(info),
        ) == (TreeEntryOutcome::Record { file: Some(info.path), directory: None, scan: None }),
        info.file_type == Ok::<crate::requests::EntryType, IoFailure>(crate::requests::EntryType::Directory) ==> scan.entry_outcome(
            directory,
            Ok(info),
        ) == (TreeEntryOutcome::Record {
            file: None,
            directory: Some(info.path),
            scan: Some(PendingTreeDirectory { path: info.path, depth: capped(directory.depth + 1, usize::MAX as int) as usize }),
        }),
        info.file_type == Ok::<crate::requests::EntryType, IoFailure>(crate::requests::EntryType::Symlink) ==> scan.entry_outcome(
            directory,
            Ok(info),
        ) == TreeEntryOutcome::Resolve(info.path),
        scan.options.follow_symbolic_links && metadata.entry_type == crate::requests::EntryType::File ==> scan.link_outcome(
            directory,
            link_path,
            resolved,
            metadata,
        ) == (TreeEntryOutcome::Record { file: Some(resolved), directory: None, scan: None }),
        scan.options.follow_symbolic_links && metadata.entry_type == crate::requests::EntryType::Directory ==> scan.link_outcome(
            directory,
            link_path,
            resolved,
            metadata,
        ) == (TreeEntryOutcome::Record {
            file: None,
            directory: Some(resolved),
            scan: Some(PendingTreeDirectory { path: resolved, depth: capped(directory.depth + 1, usize::MAX as int) as usize }),
        }),
{
}

/// A file copy reports what it did to the destination: overwritten exactly when a file was
/// there before, created otherwise, with the bytes copied; a skipped copy reports a skip.
pub proof fn law_file_copy_reports_whether_it_overwrote(outcome: TransferOutcome)
    ensures
        outcome matches TransferOutcome::Transferred { bytes, destination_existed, .. } ==> crate::file::copy_finished_of(
            outcome,
        ) == if destination_existed {
            crate::file::CopyFileFinished::Overwritten { bytes_copied: bytes }
        } else {
            crate::file::CopyFileFinished::Created { bytes_copied: bytes }
        },
        outcome is Skipped ==> crate::file::copy_finished_of(outcome) == crate::file::CopyFileFinished::Skipped,
{
}

/// The size of a directory tree is the total size its statistics counted; a failed scan is
/// reported with the directory's path.
pub proof fn law_directory_size_is_the_counted_total(
    directory_path: String,
    result: Result<crate::directory::DirectoryStatistics, DirectoryScanError>,
)
    ensures
        result matches Ok(stats) ==> crate::directory::size_result(directory_path, result) == Ok::<
            u64,
            crate::error::DirectorySizeScanError,
        >(stats.total_bytes),
        result matches Err(e) ==> crate::directory::size_result(directory_path, result) == Err::<
            u64,
            crate::error::DirectorySizeScanError,
        >(crate::error::DirectorySizeScanError::ScanError { error: e, directory_path }),
{
}

/// Collecting statistics counts every entry the scan yields, whatever its type: its own
/// metadata length joins the total (saturated) and its type's count grows by one
/// (saturated); the end of the scan finishes with what was counted, and a scan error
/// finishes with that error.
pub proof fn law_collection_counts_every_yielded_entry(
    stats: crate::directory::DirectoryStatistics,
    item: crate::directory::ScanItem,
)
    ensures
        item matches Some(Ok(entry)) ==> (crate::directory::collect_item(stats, item) matches crate::directory::CollectionOutcome::Continue(next)
            && next.total_bytes == capped(stats.total_bytes + entry.metadata.len, u64::MAX as int)
            && next.total_files == capped(
            stats.total_files + if entry.metadata.entry_type == crate::requests::EntryType::File { 1int } else { 0int },
            usize::MAX as int,
        ) && next.total_symlinks == capped(
            stats.total_symlinks + if entry.metadata.entry_type == crate::requests::EntryType::Symlink { 1int } else { 0int },
            usize::MAX as int,
        ) && next.total_directories == capped(
            stats.total_directories + if entry.metadata.entry_type == crate::requests::EntryType::Directory { 1int } else { 0int },
            usize::MAX as int,
        )),
        item is None ==> crate::directory::collect_item(stats, item) == crate::directory::CollectionOutcome::Done(Ok(stats)),
        item matches Some(Err(e)) ==> crate::directory::collect_item(stats, item) == crate::directory::CollectionOutcome::Done(Err(e)),
{
    if let Some(Ok(entry)) = item {
        law_each_entry_counts_its_own_size_and_type(stats, entry);
    }
}

} // verus!
