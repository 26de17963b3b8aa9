//! Directory copying, moving, scanning and sizing operations.
mod common;
mod copy;
mod depth_order;
mod execution;
mod mover;
mod moving;
mod planner;
mod preparation;
mod prepared;
mod scan;
mod statistics;
mod tree_scan;
mod validation;

pub use common::{
    join_relative_source_path_onto_destination, rejoined_path, CollidingSubDirectoryBehaviour,
    DestinationDirectoryRule,
};
pub use copy::{
    descends_into, may_descend_into, BrokenSymlinkBehaviour, DirectoryCopyDepthLimit,
    DirectoryCopyFinished, DirectoryCopyOptions, DirectoryCopyWithProgressOptions,
    SymlinkBehaviour,
};
pub use execution::{
    copy_directory, copy_directory_with_progress, copy_step_of, finished_summary,
    execution_operations, executed_operations, initial_execution, lemma_executed_operations_view, operation_target, root_creation, with_next_operation, CopyExecutionPhase,
    CopyExecutionResult, CopyExecutionStep, CopyProgressSettings, DirectoryCopy,
    DirectoryCopyExecution, DirectoryCopyPhase, DirectoryCopyInternalProgress, DirectoryCopyOperation,
    DirectoryCopyProgress, DirectoryCopyProgressRef,
};
pub use mover::{
    move_directory, move_directory_with_progress, move_settings, move_with_progress_settings,
    removal_path, renamed_progress, renamed_result, DirectoryMove, DirectoryMovePhase,
    DirectoryMoveStep, MoveSettings,
};
pub use moving::{
    move_operation_of, move_progress_from_copy_progress, move_progress_of, removal_progress, removal_progress_of,
    DirectoryMoveAllowedStrategies, DirectoryMoveByCopyOptions, DirectoryMoveFinished,
    DirectoryMoveOperation, DirectoryMoveOptions, DirectoryMoveProgress, DirectoryMoveStrategy,
    DirectoryMoveWithProgressAllowedStrategies, DirectoryMoveWithProgressByCopyOptions,
    DirectoryMoveWithProgressOptions,
};
pub use planner::{
    link_request, one_level_deeper, operations_view, optional, optional_scan,
    planner_step_view, scans_view, CopyPlanner, EntryOutcome, LinkResolution, LinkView,
    OperationView, PendingDirectoryScan, PhaseView, PlanErrorView, PlannerPhase,
    PlannerStepView, PlannerView, QueuedOperation, ScanView,
};
pub use preparation::{
    copy_preparation_step_view, plan_preparation_step_view, preparation_error_view, prepared_of, prepared_view, saturated_total, CopyPlanPreparation, CopyPreparationErrorView, CopyPreparationStage,
    CopyPreparationStageView, CopyPreparationStepView, DirectoryCopyPreparation,
    PlanPreparationStepView, PlanPreparationView, PlanSettings, PlanStage, PlanStageView,
    PreparedView,
};
pub use prepared::{
    collision_targets, needs_collision_check, total_size, CollisionCheck, CollisionCheckView,
    DirectoryCopyPrepared,
};
pub use depth_order::depth_order;
pub use scan::{
    deeper, is_ancestor, is_directory_empty, scans_below, DirectoryEmptinessCheck,
    EmptinessCheckPhase, Ancestor, BreadthFirstDirectoryIter, DirectoryScanDepthLimit, DirectoryScannerPerDirectoryIter,
    DirectoryScanOptionsV2, DirectoryScanner, OpenDirectory, OpenView, PendingDirectory, ScanEntry,
    ScanEntryDepth, ScanItem, ScanPhase, DirectoryScanView,
};
pub use statistics::{
    collect, collect_after, directory_size_in_bytes, size_result, size_step, DirectorySizeScan, collect_item, collect_statistics, collect_statistics_after,
    lemma_entry_without_request_consumes_listing, no_statistics, statistics_of,
    totals_scan_options, unread_entries, with_entry, CollectionOutcome, DirectoryStatistics,
};
pub use tree_scan::{
    optional_directory, optional_path, scanned_file_size_error, tree_phase_view, ScanSizePhase,
    ScanSizeQuery, lemma_drain_ignores_phase, DirectoryScan, DirectoryTreeScan, DirectoryScanOptions, PendingTreeDirectory,
    ScannedFilesAndDirectories, TreeEntryOutcome, TreePhaseView, TreeScanPhase, TreeScanView,
};
pub use validation::{
    destination_rule_outcome, validate_source_destination_directory_pair,
    DestinationDirectoryState, DestinationDirectoryValidation, DestinationValidationPhase,
    DestinationValidationResult, SourceDirectoryValidation, SourceValidationPhase,
    SourceValidationResult, ValidatedDestinationDirectory, ValidatedSourceDirectory,
};
