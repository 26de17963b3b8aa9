//! Moving a directory: by rename when possible, by copy-and-delete otherwise.
use vstd::prelude::*;

use super::common::DestinationDirectoryRule;
use super::copy::{BrokenSymlinkBehaviour, DirectoryCopyDepthLimit, DirectoryCopyFinished, SymlinkBehaviour};
use super::execution::{executed_operations, initial_execution, CopyExecutionResult, CopyProgressSettings, DirectoryCopyExecution};
use super::moving::{
    move_progress_from_copy_progress, move_progress_of, removal_progress, removal_progress_of, DirectoryMoveByCopyOptions, DirectoryMoveFinished, DirectoryMoveOperation,
    DirectoryMoveOptions, DirectoryMoveProgress, DirectoryMoveStrategy, DirectoryMoveWithProgressOptions,
};
use super::planner::{operations_view, PlanErrorView};
use super::preparation::{
    CopyPlanPreparation, PlanPreparationStepView, PlanPreparationView, PreparedView,
};
use super::prepared::DirectoryCopyPrepared;
use super::scan::{BreadthFirstDirectoryIter, DirectoryScanDepthLimit, DirectoryScanOptionsV2, DirectoryScanView, ScanItem};
use super::statistics::{
    collect, collect_after, collect_statistics, collect_statistics_after, no_statistics, totals_scan_options,
    DirectoryStatistics,
};
use super::validation::{
    validate_source_destination_directory_pair, DestinationDirectoryState, DestinationDirectoryValidation,
    DestinationValidationPhase, SourceDirectoryValidation, SourceValidationPhase, ValidatedDestinationDirectory,
    ValidatedSourceDirectory,
};
use crate::error::{
    DestinationDirectoryPathValidationError, DirectoryExecutionPlanError, DirectoryScanError,
    MoveDirectoryError, MoveDirectoryExecutionError, MoveDirectoryPreparationError,
};
use crate::file::FileProgress;
use crate::path::path_starts_with;
use crate::requests::{FsRequest, FsResponse, MachineStep, RequestView};

verus! {

/// The settings of a directory move.
#[derive(Clone, Copy, PartialEq, Eq, Debug, Structural)]
pub struct MoveSettings {
    /// The rule the destination directory must respect.
    pub destination_directory_rule: DestinationDirectoryRule,
    /// Whether moving by rename is allowed.
    pub may_rename: bool,
    /// The link behaviours of the copy-and-delete strategy, when it is allowed.
    pub copy_and_delete: Option<DirectoryMoveByCopyOptions>,
    /// Progress settings, when progress is reported.
    pub progress_settings: Option<CopyProgressSettings>,
}

/// Where a directory move stands.
pub enum DirectoryMovePhase {
    /// Validating the source directory.
    ValidatingSource(SourceDirectoryValidation),
    /// Validating the destination directory.
    ValidatingDestination { source: ValidatedSourceDirectory, validation: DestinationDirectoryValidation },
    /// Scanning the source directory for its statistics.
    Collecting {
        source: ValidatedSourceDirectory,
        destination: ValidatedDestinationDirectory,
        scan: BreadthFirstDirectoryIter,
        statistics: DirectoryStatistics,
    },
    /// Waiting for the rename of the source directory to the destination.
    AwaitRename { source: ValidatedSourceDirectory, destination: ValidatedDestinationDirectory, details: DirectoryStatistics },
    /// Preparing the copy of the copy-and-delete strategy.
    Planning { source: ValidatedSourceDirectory, details: DirectoryStatistics, plan: CopyPlanPreparation },
    /// Copying the source directory to the destination.
    Copying { source: ValidatedSourceDirectory, details: DirectoryStatistics, execution: DirectoryCopyExecution },
    /// Removing the source directory after it was copied.
    RemovingSource { source: ValidatedSourceDirectory, details: DirectoryStatistics, copied: DirectoryCopyFinished },
    /// The move has finished.
    Finished,
}

/// A step of a directory move: the progress to report now, if any, and what next.
pub type DirectoryMoveStep = (Option<DirectoryMoveProgress>, MachineStep<Result<DirectoryMoveFinished, MoveDirectoryError>>);

/// Moves a directory: validates both directories, collects the source's statistics, renames
/// the source when the strategies and the destination allow it, and otherwise (or when the
/// rename fails) copies the source to the destination and removes the source.
pub struct DirectoryMove {
    /// The destination directory path, as given.
    pub destination_directory_path: String,
    /// The settings of the move.
    pub settings: MoveSettings,
    /// Where the move stands.
    pub phase: DirectoryMovePhase,
}

/// The path that is removed once the source directory was copied: the symbolic link as
/// given, when the source was one, the source directory otherwise.
pub open spec fn removal_path(source: ValidatedSourceDirectory) -> String {
    if source.original_path_was_symlink_to_directory {
        source.unfollowed_directory_path
    } else {
        source.directory_path
    }
}

/// The result of a move by rename, given the source directory's statistics.
pub open spec fn renamed_result(details: DirectoryStatistics) -> DirectoryMoveFinished {
    DirectoryMoveFinished {
        total_bytes_moved: details.total_bytes,
        files_moved: details.total_files,
        symlinks_moved: details.total_symlinks,
        directories_moved: details.total_directories,
        strategy_used: DirectoryMoveStrategy::Rename,
    }
}

/// The progress reported after a move by rename.
pub open spec fn renamed_progress(details: DirectoryStatistics) -> DirectoryMoveProgress {
    DirectoryMoveProgress {
        bytes_total: details.total_bytes,
        bytes_finished: details.total_bytes,
        files_moved: details.total_files,
        directories_created: details.total_directories,
        current_operation: DirectoryMoveOperation::RemovingSourceDirectory,
        current_operation_index: 1,
        total_operations: 2,
    }
}

impl DirectoryMove {
    /// Whether the move reports progress.
    pub open spec fn reports(self) -> bool {
        self.settings.progress_settings is Some
    }

    /// The result of a move by copy-and-delete.
    pub open spec fn copied_result(self, details: DirectoryStatistics, copied: DirectoryCopyFinished) -> DirectoryMoveFinished {
        if self.reports() {
            DirectoryMoveFinished {
                total_bytes_moved: copied.total_bytes_copied,
                files_moved: copied.files_copied,
                symlinks_moved: copied.symlinks_created,
                directories_moved: copied.directories_created,
                strategy_used: DirectoryMoveStrategy::CopyAndDelete,
            }
        } else {
            DirectoryMoveFinished {
                total_bytes_moved: details.total_bytes,
                files_moved: details.total_files,
                symlinks_moved: details.total_symlinks,
                directories_moved: details.total_directories,
                strategy_used: DirectoryMoveStrategy::CopyAndDelete,
            }
        }
    }

    /// Whether the parts of the move are consistent.
    pub open spec fn well_formed(self) -> bool {
        match self.phase {
            DirectoryMovePhase::Collecting { scan, .. } => scan.well_formed(),
            DirectoryMovePhase::Planning { plan, .. } => plan.well_formed(),
            DirectoryMovePhase::Copying { execution, .. } => {
                &&& execution.well_formed()
                &&& execution.destination_directory_rule == self.settings.destination_directory_rule
                &&& execution.progress_settings == self.settings.progress_settings
            },
            _ => true,
        }
    }

    /// Whether `response` can resume this move.
    pub open spec fn accepts(self, response: FsResponse) -> bool {
        match self.phase {
            DirectoryMovePhase::ValidatingSource(v) => v.accepts(response),
            DirectoryMovePhase::ValidatingDestination { validation, .. } => validation.accepts(response),
            DirectoryMovePhase::Collecting { scan, .. } => scan.accepts(response),
            DirectoryMovePhase::AwaitRename { .. } => response is Done,
            DirectoryMovePhase::Planning { plan, .. } => plan.accepts(response),
            DirectoryMovePhase::Copying { execution, .. } => execution.accepts(response),
            DirectoryMovePhase::RemovingSource { .. } => response is Done,
            DirectoryMovePhase::Finished => false,
        }
    }

    /// `next`, `report` and `step` end the move with `error`.
    pub open spec fn fails_with(
        self,
        error: MoveDirectoryError,
        next: DirectoryMove,
        report: Option<DirectoryMoveProgress>,
        step: MachineStep<Result<DirectoryMoveFinished, MoveDirectoryError>>,
    ) -> bool {
        &&& next.phase is Finished
        &&& report is None
        &&& step == MachineStep::<Result<DirectoryMoveFinished, MoveDirectoryError>>::Finished(Err(error))
    }

    /// `next`, `report` and `step` continue the move after its copy execution stepped to
    /// `execution`/`copy_report`/`copy_step`.
    pub open spec fn after_execution(
        self,
        source: ValidatedSourceDirectory,
        details: DirectoryStatistics,
        execution: DirectoryCopyExecution,
        copy_report: bool,
        copy_step: MachineStep<CopyExecutionResult>,
        next: DirectoryMove,
        report: Option<DirectoryMoveProgress>,
        step: MachineStep<Result<DirectoryMoveFinished, MoveDirectoryError>>,
    ) -> bool {
        let progress = if copy_report { move_progress_of(execution.progress) } else { None };
        match copy_step {
            MachineStep::Perform(r) => {
                &&& next.phase == (DirectoryMovePhase::Copying { source, details, execution })
                &&& report == progress
                &&& step == MachineStep::<Result<DirectoryMoveFinished, MoveDirectoryError>>::Perform(r)
            },
            MachineStep::Finished(Err(e)) => self.fails_with(
                MoveDirectoryError::ExecutionError(MoveDirectoryExecutionError::CopyDirectoryError(e)),
                next,
                report,
                step,
            ),
            MachineStep::Finished(Ok(copied)) => {
                &&& next.phase == (DirectoryMovePhase::RemovingSource { source, details, copied })
                &&& report == (if self.reports() { Some(removal_progress(execution.progress)) } else { None })
                &&& step == MachineStep::<Result<DirectoryMoveFinished, MoveDirectoryError>>::Perform(
                    FsRequest::RemoveDirectoryAll { path: removal_path(source) },
                )
            },
        }
    }

    /// `next`, `report` and `step` continue the move after its copy was prepared as `prepared`.
    pub open spec fn copy_started(
        self,
        source: ValidatedSourceDirectory,
        details: DirectoryStatistics,
        prepared: PreparedView,
        next: DirectoryMove,
        report: Option<DirectoryMoveProgress>,
        step: MachineStep<Result<DirectoryMoveFinished, MoveDirectoryError>>,
    ) -> bool {
        exists|operations: Vec<super::planner::QueuedOperation>| {
            let (execution, copy_report, copy_step) = #[trigger] initial_execution(
                operations,
                prepared.total_bytes,
                self.settings.destination_directory_rule,
                self.settings.progress_settings,
            ).start_at(0);
            &&& operations_view(operations@) == executed_operations(prepared)
            &&& execution.well_formed()
            &&& self.after_execution(source, details, execution, copy_report, copy_step, next, report, step)
        }
    }

    /// `next`, `report` and `step` continue the move after its copy preparation stepped to
    /// `plan`/`plan_step`.
    pub open spec fn after_planning(
        self,
        source: ValidatedSourceDirectory,
        details: DirectoryStatistics,
        plan: PlanPreparationView,
        plan_step: PlanPreparationStepView,
        next: DirectoryMove,
        report: Option<DirectoryMoveProgress>,
        step: MachineStep<Result<DirectoryMoveFinished, MoveDirectoryError>>,
    ) -> bool {
        match plan_step {
            PlanPreparationStepView::Perform(r) => {
                &&& next.phase matches DirectoryMovePhase::Planning { source: s, details: d, plan: p }
                    && s == source && d == details && p.view_state() == plan && p.well_formed()
                &&& report is None
                &&& step matches MachineStep::Perform(request) && request@ == r
            },
            PlanPreparationStepView::Finished(Err(e)) => {
                &&& next.phase is Finished
                &&& report is None
                &&& step matches MachineStep::Finished(Err(MoveDirectoryError::PreparationError(
                    MoveDirectoryPreparationError::CopyPlanningError(error),
                ))) && error@ == e
            },
            PlanPreparationStepView::Finished(Ok(prepared)) => self.copy_started(source, details, prepared, next, report, step),
        }
    }

    /// `next`, `report` and `step` fall back on copy-and-delete, or fail when it is not allowed.
    pub open spec fn falls_back(
        self,
        source: ValidatedSourceDirectory,
        destination: ValidatedDestinationDirectory,
        details: DirectoryStatistics,
        next: DirectoryMove,
        report: Option<DirectoryMoveProgress>,
        step: MachineStep<Result<DirectoryMoveFinished, MoveDirectoryError>>,
    ) -> bool {
        match self.settings.copy_and_delete {
            None => self.fails_with(
                MoveDirectoryError::ExecutionError(MoveDirectoryExecutionError::RenameFailedAndNoFallbackStrategy),
                next,
                report,
                step,
            ),
            Some(options) => {
                let (plan, plan_step) = CopyPlanPreparation::initial(
                    source,
                    destination,
                    self.settings.destination_directory_rule,
                    DirectoryCopyDepthLimit::Unlimited,
                    options.symlink_behaviour,
                    options.broken_symlink_behaviour,
                );
                self.after_planning(source, details, plan, plan_step, next, report, step)
            },
        }
    }

    /// `next`, `report` and `step` continue the move once the source's statistics are known.
    pub open spec fn after_details(
        self,
        source: ValidatedSourceDirectory,
        destination: ValidatedDestinationDirectory,
        details: DirectoryStatistics,
        next: DirectoryMove,
        report: Option<DirectoryMoveProgress>,
        step: MachineStep<Result<DirectoryMoveFinished, MoveDirectoryError>>,
    ) -> bool {
        if self.settings.may_rename && (destination.state is DoesNotExist || destination.state is IsEmpty) {
            &&& next.phase == (DirectoryMovePhase::AwaitRename { source, destination, details })
            &&& report is None
            &&& step == MachineStep::<Result<DirectoryMoveFinished, MoveDirectoryError>>::Perform(FsRequest::Rename {
                from: source.unfollowed_directory_path,
                to: destination.directory_path,
            })
        } else {
            self.falls_back(source, destination, details, next, report, step)
        }
    }

    /// `next`, `report` and `step` continue the move after its statistics collection stepped
    /// to `scan`/`statistics`/`collected`.
    pub open spec fn after_collection(
        self,
        source: ValidatedSourceDirectory,
        destination: ValidatedDestinationDirectory,
        scan: DirectoryScanView,
        statistics: DirectoryStatistics,
        collected: MachineStep<Result<DirectoryStatistics, DirectoryScanError>>,
        next: DirectoryMove,
        report: Option<DirectoryMoveProgress>,
        step: MachineStep<Result<DirectoryMoveFinished, MoveDirectoryError>>,
    ) -> bool {
        match collected {
            MachineStep::Perform(r) => {
                &&& next.phase matches DirectoryMovePhase::Collecting { source: s, destination: d, scan: i, statistics: t }
                    && s == source && d == destination && i.view_state() == scan && i.well_formed() && t == statistics
                &&& report is None
                &&& step == MachineStep::<Result<DirectoryMoveFinished, MoveDirectoryError>>::Perform(r)
            },
            MachineStep::Finished(Err(e)) => self.fails_with(
                MoveDirectoryError::PreparationError(MoveDirectoryPreparationError::DirectoryScanError(e)),
                next,
                report,
                step,
            ),
            MachineStep::Finished(Ok(details)) => self.after_details(source, destination, details, next, report, step),
        }
    }

    /// `next`, `report` and `step` continue the move once both directories were validated.
    pub open spec fn after_validation(
        self,
        source: ValidatedSourceDirectory,
        destination: ValidatedDestinationDirectory,
        next: DirectoryMove,
        report: Option<DirectoryMoveProgress>,
        step: MachineStep<Result<DirectoryMoveFinished, MoveDirectoryError>>,
    ) -> bool {
        if path_starts_with(destination.directory_path@, source.directory_path@) {
            self.fails_with(
                MoveDirectoryError::PreparationError(MoveDirectoryPreparationError::DestinationDirectoryValidationError(
                    DestinationDirectoryPathValidationError::DescendantOfSourceDirectory {
                        destination_directory_path: destination.directory_path,
                        source_directory_path: source.directory_path,
                    },
                )),
                next,
                report,
                step,
            )
        } else {
            let (scan, statistics, collected) = collect(
                BreadthFirstDirectoryIter::initial(source.directory_path, totals_scan_options()),
                no_statistics(),
            );
            self.after_collection(source, destination, scan, statistics, collected, next, report, step)
        }
    }

    /// Whether `next`, `report` and `step` are what this move turns into, reports and does next
    /// when resumed with `response`.
    pub open spec fn resumes_to(
        self,
        response: FsResponse,
        next: DirectoryMove,
        report: Option<DirectoryMoveProgress>,
        step: MachineStep<Result<DirectoryMoveFinished, MoveDirectoryError>>,
    ) -> bool {
        &&& next.destination_directory_path == self.destination_directory_path
        &&& next.settings == self.settings
        &&& match self.phase {
            DirectoryMovePhase::ValidatingSource(v) => {
                let (v2, s) = v.next(response);
                match s {
                    MachineStep::Perform(r) => {
                        &&& next.phase == DirectoryMovePhase::ValidatingSource(v2)
                        &&& report is None
                        &&& step == MachineStep::<Result<DirectoryMoveFinished, MoveDirectoryError>>::Perform(r)
                    },
                    MachineStep::Finished(Err(e)) => self.fails_with(
                        MoveDirectoryError::PreparationError(MoveDirectoryPreparationError::SourceDirectoryValidationError(e)),
                        next,
                        report,
                        step,
                    ),
                    MachineStep::Finished(Ok(source)) => {
                        &&& next.phase == (DirectoryMovePhase::ValidatingDestination {
                            source,
                            validation: DestinationDirectoryValidation {
                                destination_directory_path: self.destination_directory_path,
                                destination_directory_rule: self.settings.destination_directory_rule,
                                phase: DestinationValidationPhase::AwaitExistence,
                            },
                        })
                        &&& report is None
                        &&& step == MachineStep::<Result<DirectoryMoveFinished, MoveDirectoryError>>::Perform(
                            FsRequest::SymlinkMetadata { path: self.destination_directory_path },
                        )
                    },
                }
            },
            DirectoryMovePhase::ValidatingDestination { source, validation } => {
                let (v2, s) = validation.next(response);
                match s {
                    MachineStep::Perform(r) => {
                        &&& next.phase == (DirectoryMovePhase::ValidatingDestination { source, validation: v2 })
                        &&& report is None
                        &&& step == MachineStep::<Result<DirectoryMoveFinished, MoveDirectoryError>>::Perform(r)
                    },
                    MachineStep::Finished(Err(e)) => self.fails_with(
                        MoveDirectoryError::PreparationError(MoveDirectoryPreparationError::DestinationDirectoryValidationError(e)),
                        next,
                        report,
                        step,
                    ),
                    MachineStep::Finished(Ok(destination)) => self.after_validation(source, destination, next, report, step),
                }
            },
            DirectoryMovePhase::Collecting { source, destination, scan, statistics } => {
                let (v, s) = scan.view_state().next(response);
                let (v2, t, collected) = collect_after(v, statistics, s);
                self.after_collection(source, destination, v2, t, collected, next, report, step)
            },
            DirectoryMovePhase::AwaitRename { source, destination, details } => match response {
                FsResponse::Done(Ok(())) => {
                    &&& next.phase is Finished
                    &&& report == (if self.reports() { Some(renamed_progress(details)) } else { None })
                    &&& step == MachineStep::<Result<DirectoryMoveFinished, MoveDirectoryError>>::Finished(Ok(renamed_result(details)))
                },
                _ => self.falls_back(source, destination, details, next, report, step),
            },
            DirectoryMovePhase::Planning { source, details, plan } => {
                let (p, s) = plan.next(response);
                self.after_planning(source, details, p, s, next, report, step)
            },
            DirectoryMovePhase::Copying { source, details, execution } => {
                let (e, r, s) = execution.next(response);
                self.after_execution(source, details, e, r, s, next, report, step)
            },
            DirectoryMovePhase::RemovingSource { source, details, copied } => match response {
                FsResponse::Done(Err(f)) => self.fails_with(
                    MoveDirectoryError::ExecutionError(MoveDirectoryExecutionError::UnableToAccessSource {
                        path: source.directory_path,
                        error: f.error,
                    }),
                    next,
                    report,
                    step,
                ),
                _ => {
                    &&& next.phase is Finished
                    &&& report is None
                    &&& step == MachineStep::<Result<DirectoryMoveFinished, MoveDirectoryError>>::Finished(Ok(
                        self.copied_result(details, copied),
                    ))
                },
            },
            DirectoryMovePhase::Finished => true,
        }
    }
}

impl DirectoryMove {
    /// Ends the move with `error`.
    fn fail(&mut self, error: MoveDirectoryError) -> (r: DirectoryMoveStep)
        ensures
            final(self).destination_directory_path == old(self).destination_directory_path,
            final(self).settings == old(self).settings,
            old(self).fails_with(error, *final(self), r.0, r.1),
    {
        self.phase = DirectoryMovePhase::Finished;
        (None, MachineStep::Finished(Err(error)))
    }

    /// Continues after the copy execution stepped to `execution`/`copy_report`/`copy_step`.
    fn continue_execution(
        &mut self,
        source: ValidatedSourceDirectory,
        details: DirectoryStatistics,
        execution: DirectoryCopyExecution,
        copy_report: bool,
        copy_step: MachineStep<CopyExecutionResult>,
    ) -> (r: DirectoryMoveStep)
        requires
            execution.well_formed(),
            execution.destination_directory_rule == old(self).settings.destination_directory_rule,
            execution.progress_settings == old(self).settings.progress_settings,
        ensures
            final(self).destination_directory_path == old(self).destination_directory_path,
            final(self).settings == old(self).settings,
            final(self).well_formed(),
            old(self).after_execution(source, details, execution, copy_report, copy_step, *final(self), r.0, r.1),
    {
        let progress = if copy_report { move_progress_from_copy_progress(&execution.progress) } else { None };
        match copy_step {
            MachineStep::Perform(request) => {
                self.phase = DirectoryMovePhase::Copying { source, details, execution };
                (progress, MachineStep::Perform(request))
            },
            MachineStep::Finished(Err(e)) => self.fail(
                MoveDirectoryError::ExecutionError(MoveDirectoryExecutionError::CopyDirectoryError(e)),
            ),
            MachineStep::Finished(Ok(copied)) => {
                let removal_report = if self.settings.progress_settings.is_some() {
                    Some(removal_progress_of(&execution.progress))
                } else {
                    None
                };
                let path = if source.original_path_was_symlink_to_directory {
                    source.unfollowed_directory_path.clone()
                } else {
                    source.directory_path.clone()
                };
                self.phase = DirectoryMovePhase::RemovingSource { source, details, copied };
                (removal_report, MachineStep::Perform(FsRequest::RemoveDirectoryAll { path }))
            },
        }
    }

    /// Starts the copy of the prepared copy-and-delete strategy.
    fn start_copy(
        &mut self,
        source: ValidatedSourceDirectory,
        details: DirectoryStatistics,
        prepared: DirectoryCopyPrepared,
    ) -> (r: DirectoryMoveStep)
        ensures
            final(self).destination_directory_path == old(self).destination_directory_path,
            final(self).settings == old(self).settings,
            final(self).well_formed(),
            old(self).copy_started(source, details, super::preparation::prepared_view(prepared), *final(self), r.0, r.1),
    {
        proof {
            super::execution::lemma_executed_operations_view(prepared);
        }
        let ghost total = prepared.total_bytes;
        let (execution, (copy_report, copy_step)) = DirectoryCopyExecution::start(
            prepared,
            self.settings.destination_directory_rule,
            self.settings.progress_settings,
        );
        let ghost started = initial_execution(execution.operations, total, old(self).settings.destination_directory_rule, old(self).settings.progress_settings).start_at(0);
        let r = self.continue_execution(source, details, execution, copy_report, copy_step);
        proof {
            assert(started == (execution, copy_report, copy_step));
        }
        r
    }

    /// Continues after the copy preparation stepped to `plan`/`plan_step`.
    fn continue_planning(
        &mut self,
        source: ValidatedSourceDirectory,
        details: DirectoryStatistics,
        plan: CopyPlanPreparation,
        plan_step: MachineStep<Result<DirectoryCopyPrepared, DirectoryExecutionPlanError>>,
    ) -> (r: DirectoryMoveStep)
        requires
            plan.well_formed(),
        ensures
            final(self).destination_directory_path == old(self).destination_directory_path,
            final(self).settings == old(self).settings,
            final(self).well_formed(),
            old(self).after_planning(
                source,
                details,
                plan.view_state(),
                super::preparation::plan_preparation_step_view(plan_step),
                *final(self),
                r.0,
                r.1,
            ),
    {
        match plan_step {
            MachineStep::Perform(request) => {
                self.phase = DirectoryMovePhase::Planning { source, details, plan };
                (None, MachineStep::Perform(request))
            },
            MachineStep::Finished(Err(e)) => self.fail(
                MoveDirectoryError::PreparationError(MoveDirectoryPreparationError::CopyPlanningError(e)),
            ),
            MachineStep::Finished(Ok(prepared)) => self.start_copy(source, details, prepared),
        }
    }

    /// Falls back on copy-and-delete, or fails when it is not allowed.
    fn fall_back(
        &mut self,
        source: ValidatedSourceDirectory,
        destination: ValidatedDestinationDirectory,
        details: DirectoryStatistics,
    ) -> (r: DirectoryMoveStep)
        ensures
            final(self).destination_directory_path == old(self).destination_directory_path,
            final(self).settings == old(self).settings,
            final(self).well_formed(),
            old(self).falls_back(source, destination, details, *final(self), r.0, r.1),
    {
        match self.settings.copy_and_delete {
            None => self.fail(MoveDirectoryError::ExecutionError(
                MoveDirectoryExecutionError::RenameFailedAndNoFallbackStrategy,
            )),
            Some(options) => {
                let (plan, plan_step) = CopyPlanPreparation::start(
                    source.duplicate(),
                    destination,
                    self.settings.destination_directory_rule,
                    DirectoryCopyDepthLimit::Unlimited,
                    options.symlink_behaviour,
                    options.broken_symlink_behaviour,
                );
                self.continue_planning(source, details, plan, plan_step)
            },
        }
    }

    /// Continues once the source's statistics are known.
    fn continue_with_details(
        &mut self,
        source: ValidatedSourceDirectory,
        destination: ValidatedDestinationDirectory,
        details: DirectoryStatistics,
    ) -> (r: DirectoryMoveStep)
        ensures
            final(self).destination_directory_path == old(self).destination_directory_path,
            final(self).settings == old(self).settings,
            final(self).well_formed(),
            old(self).after_details(source, destination, details, *final(self), r.0, r.1),
    {
        let renamable = match destination.state {
            DestinationDirectoryState::DoesNotExist | DestinationDirectoryState::IsEmpty => true,
            DestinationDirectoryState::IsNotEmpty => false,
        };
        if self.settings.may_rename && renamable {
            let request = FsRequest::Rename {
                from: source.unfollowed_directory_path.clone(),
                to: destination.directory_path.clone(),
            };
            self.phase = DirectoryMovePhase::AwaitRename { source, destination, details };
            (None, MachineStep::Perform(request))
        } else {
            self.fall_back(source, destination, details)
        }
    }

    /// Continues after the statistics collection stepped to `collected`.
    fn continue_collection(
        &mut self,
        source: ValidatedSourceDirectory,
        destination: ValidatedDestinationDirectory,
        scan: BreadthFirstDirectoryIter,
        statistics: DirectoryStatistics,
        collected: MachineStep<Result<DirectoryStatistics, DirectoryScanError>>,
    ) -> (r: DirectoryMoveStep)
        requires
            scan.well_formed(),
        ensures
            final(self).destination_directory_path == old(self).destination_directory_path,
            final(self).settings == old(self).settings,
            final(self).well_formed(),
            old(self).after_collection(source, destination, scan.view_state(), statistics, collected, *final(self), r.0, r.1),
    {
        match collected {
            MachineStep::Perform(request) => {
                self.phase = DirectoryMovePhase::Collecting { source, destination, scan, statistics };
                (None, MachineStep::Perform(request))
            },
            MachineStep::Finished(Err(e)) => self.fail(
                MoveDirectoryError::PreparationError(MoveDirectoryPreparationError::DirectoryScanError(e)),
            ),
            MachineStep::Finished(Ok(details)) => self.continue_with_details(source, destination, details),
        }
    }

    /// Continues once both directories were validated.
    fn continue_after_validation(
        &mut self,
        source: ValidatedSourceDirectory,
        destination: ValidatedDestinationDirectory,
    ) -> (r: DirectoryMoveStep)
        ensures
            final(self).destination_directory_path == old(self).destination_directory_path,
            final(self).settings == old(self).settings,
            final(self).well_formed(),
            old(self).after_validation(source, destination, *final(self), r.0, r.1),
    {
        match validate_source_destination_directory_pair(&source.directory_path, &destination.directory_path) {
            Err(e) => self.fail(MoveDirectoryError::PreparationError(
                MoveDirectoryPreparationError::DestinationDirectoryValidationError(e),
            )),
            Ok(()) => {
                let options = DirectoryScanOptionsV2 {
                    yield_base_directory: true,
                    maximum_scan_depth: DirectoryScanDepthLimit::Unlimited,
                    follow_symbolic_links: false,
                    follow_base_directory_symbolic_link: true,
                };
                let mut scan = BreadthFirstDirectoryIter::new(source.directory_path.clone(), options);
                let mut statistics = DirectoryStatistics {
                    total_bytes: 0,
                    total_files: 0,
                    total_symlinks: 0,
                    total_directories: 0,
                };
                let collected = collect_statistics(&mut scan, &mut statistics);
                self.continue_collection(source, destination, scan, statistics, collected)
            },
        }
    }

    /// Whether `response` can resume this move.
    pub fn can_accept(&self, response: &FsResponse) -> (r: bool)
        ensures
            r == self.accepts(*response),
    {
        match &self.phase {
            DirectoryMovePhase::ValidatingSource(v) => v.can_accept(response),
            DirectoryMovePhase::ValidatingDestination { validation, .. } => validation.can_accept(response),
            DirectoryMovePhase::Collecting { scan, .. } => scan.can_accept(response),
            DirectoryMovePhase::AwaitRename { .. } => matches!(response, FsResponse::Done(_)),
            DirectoryMovePhase::Planning { plan, .. } => plan.can_accept(response),
            DirectoryMovePhase::Copying { execution, .. } => execution.can_accept(response),
            DirectoryMovePhase::RemovingSource { .. } => matches!(response, FsResponse::Done(_)),
            DirectoryMovePhase::Finished => false,
        }
    }

    /// Records a progress report of the file being copied; outside the copy, nothing changes.
    pub fn record_file_progress(&mut self, file_progress: FileProgress)
        requires
            old(self).well_formed(),
        ensures
            final(self).well_formed(),
            final(self).destination_directory_path == old(self).destination_directory_path,
            final(self).settings == old(self).settings,
            final(self).phase == match old(self).phase {
                DirectoryMovePhase::Copying { source, details, execution } => DirectoryMovePhase::Copying {
                    source,
                    details,
                    execution: execution.with_file_progress(file_progress),
                },
                other => other,
            },
    {
        match &mut self.phase {
            DirectoryMovePhase::Copying { execution, .. } => execution.record_file_progress(file_progress),
            _ => {},
        }
    }

    /// The progress of the copy, as move progress, once a copy operation has started.
    pub fn current_progress(&self) -> (r: Option<DirectoryMoveProgress>)
        ensures
            match self.phase {
                DirectoryMovePhase::Copying { execution, .. } => r == move_progress_of(execution.progress),
                _ => r is None,
            },
    {
        match &self.phase {
            DirectoryMovePhase::Copying { execution, .. } => move_progress_from_copy_progress(&execution.progress),
            _ => None,
        }
    }

    /// Resumes the move with the response to its pending request.
    pub fn resume(&mut self, response: FsResponse) -> (r: DirectoryMoveStep)
        requires
            old(self).well_formed(),
            old(self).accepts(response),
        ensures
            final(self).well_formed(),
            old(self).resumes_to(response, *final(self), r.0, r.1),
    {
        let mut phase = DirectoryMovePhase::Finished;
        std::mem::swap(&mut phase, &mut self.phase);
        match phase {
            DirectoryMovePhase::ValidatingSource(mut validation) => match validation.resume(response) {
                MachineStep::Perform(request) => {
                    self.phase = DirectoryMovePhase::ValidatingSource(validation);
                    (None, MachineStep::Perform(request))
                },
                MachineStep::Finished(Err(e)) => self.fail(MoveDirectoryError::PreparationError(
                    MoveDirectoryPreparationError::SourceDirectoryValidationError(e),
                )),
                MachineStep::Finished(Ok(source)) => {
                    let (destination_validation, request) = DestinationDirectoryValidation::start(
                        self.destination_directory_path.clone(),
                        self.settings.destination_directory_rule,
                    );
                    self.phase = DirectoryMovePhase::ValidatingDestination { source, validation: destination_validation };
                    (None, MachineStep::Perform(request))
                },
            },
            DirectoryMovePhase::ValidatingDestination { source, mut validation } => match validation.resume(response) {
                MachineStep::Perform(request) => {
                    self.phase = DirectoryMovePhase::ValidatingDestination { source, validation };
                    (None, MachineStep::Perform(request))
                },
                MachineStep::Finished(Err(e)) => self.fail(MoveDirectoryError::PreparationError(
                    MoveDirectoryPreparationError::DestinationDirectoryValidationError(e),
                )),
                MachineStep::Finished(Ok(destination)) => self.continue_after_validation(source, destination),
            },
            DirectoryMovePhase::Collecting { source, destination, mut scan, mut statistics } => {
                let scan_step = scan.resume(response);
                let collected = collect_statistics_after(&mut scan, &mut statistics, scan_step);
                self.continue_collection(source, destination, scan, statistics, collected)
            },
            DirectoryMovePhase::AwaitRename { source, destination, details } => match response {
                FsResponse::Done(Ok(())) => {
                    let report = if self.settings.progress_settings.is_some() {
                        Some(DirectoryMoveProgress {
                            bytes_total: details.total_bytes,
                            bytes_finished: details.total_bytes,
                            files_moved: details.total_files,
                            directories_created: details.total_directories,
                            current_operation: DirectoryMoveOperation::RemovingSourceDirectory,
                            current_operation_index: 1,
                            total_operations: 2,
                        })
                    } else {
                        None
                    };
                    (report, MachineStep::Finished(Ok(DirectoryMoveFinished {
                        total_bytes_moved: details.total_bytes,
                        files_moved: details.total_files,
                        symlinks_moved: details.total_symlinks,
                        directories_moved: details.total_directories,
                        strategy_used: DirectoryMoveStrategy::Rename,
                    })))
                },
                _ => self.fall_back(source, destination, details),
            },
            DirectoryMovePhase::Planning { source, details, mut plan } => {
                let plan_step = plan.resume(response);
                self.continue_planning(source, details, plan, plan_step)
            },
            DirectoryMovePhase::Copying { source, details, mut execution } => {
                let (copy_report, copy_step) = execution.resume(response);
                self.continue_execution(source, details, execution, copy_report, copy_step)
            },
            DirectoryMovePhase::RemovingSource { source, details, copied } => match response {
                FsResponse::Done(Err(f)) => self.fail(MoveDirectoryError::ExecutionError(
                    MoveDirectoryExecutionError::UnableToAccessSource { path: source.directory_path, error: f.error },
                )),
                _ => {
                    let finished = if self.settings.progress_settings.is_some() {
                        DirectoryMoveFinished {
                            total_bytes_moved: copied.total_bytes_copied,
                            files_moved: copied.files_copied,
                            symlinks_moved: copied.symlinks_created,
                            directories_moved: copied.directories_created,
                            strategy_used: DirectoryMoveStrategy::CopyAndDelete,
                        }
                    } else {
                        DirectoryMoveFinished {
                            total_bytes_moved: details.total_bytes,
                            files_moved: details.total_files,
                            symlinks_moved: details.total_symlinks,
                            directories_moved: details.total_directories,
                            strategy_used: DirectoryMoveStrategy::CopyAndDelete,
                        }
                    };
                    (None, MachineStep::Finished(Ok(finished)))
                },
            },
            DirectoryMovePhase::Finished => (None, MachineStep::Finished(Err(MoveDirectoryError::ExecutionError(
                MoveDirectoryExecutionError::RenameFailedAndNoFallbackStrategy,
            )))),
        }
    }

    /// Starts moving `source_directory_path` to `destination_directory_path` with `settings`.
    pub fn start(source_directory_path: String, destination_directory_path: String, settings: MoveSettings) -> (r: (
        DirectoryMove,
        FsRequest,
    ))
        ensures
            r.0.well_formed(),
            r.0 == (DirectoryMove {
                destination_directory_path,
                settings,
                phase: DirectoryMovePhase::ValidatingSource(SourceDirectoryValidation {
                    source_directory_path,
                    phase: SourceValidationPhase::AwaitExistence,
                }),
            }),
            r.1@ == (RequestView::SymlinkMetadata { path: source_directory_path@ }),
    {
        let (validation, request) = SourceDirectoryValidation::start(source_directory_path);
        (DirectoryMove { destination_directory_path, settings, phase: DirectoryMovePhase::ValidatingSource(validation) }, request)
    }
}

/// The settings of a move with `options`.
pub open spec fn move_settings(options: DirectoryMoveOptions) -> MoveSettings {
    MoveSettings {
        destination_directory_rule: options.destination_directory_rule,
        may_rename: options.allowed_strategies.may_rename(),
        copy_and_delete: options.allowed_strategies.copy_and_delete(),
        progress_settings: None,
    }
}

/// The settings of a move with progress reporting with `options`.
pub open spec fn move_with_progress_settings(options: DirectoryMoveWithProgressOptions) -> MoveSettings {
    let copy = options.allowed_strategies.copy_and_delete();
    MoveSettings {
        destination_directory_rule: options.destination_directory_rule,
        may_rename: options.allowed_strategies.may_rename(),
        copy_and_delete: match copy {
            Some(o) => Some(DirectoryMoveByCopyOptions {
                symlink_behaviour: o.symlink_behaviour,
                broken_symlink_behaviour: o.broken_symlink_behaviour,
            }),
            None => None,
        },
        progress_settings: match copy {
            Some(o) => Some(CopyProgressSettings {
                read_buffer_size: o.read_buffer_size,
                write_buffer_size: o.write_buffer_size,
                progress_update_byte_interval: o.progress_update_byte_interval,
            }),
            None => Some(CopyProgressSettings { read_buffer_size: 0, write_buffer_size: 0, progress_update_byte_interval: 0 }),
        },
    }
}

/// Starts moving the directory `source_directory_path` to `destination_directory_path`.
pub fn move_directory(
    source_directory_path: String,
    destination_directory_path: String,
    options: DirectoryMoveOptions,
) -> (r: (DirectoryMove, FsRequest))
    ensures
        r.0.well_formed(),
        r.0 == (DirectoryMove {
            destination_directory_path,
            settings: move_settings(options),
            phase: DirectoryMovePhase::ValidatingSource(SourceDirectoryValidation {
                source_directory_path,
                phase: SourceValidationPhase::AwaitExistence,
            }),
        }),
        r.1@ == (RequestView::SymlinkMetadata { path: source_directory_path@ }),
{
    let settings = MoveSettings {
        destination_directory_rule: options.destination_directory_rule,
        may_rename: options.allowed_strategies.allowed_to_rename(),
        copy_and_delete: options.allowed_strategies.into_options_if_allowed_to_copy_and_delete(),
        progress_settings: None,
    };
    DirectoryMove::start(source_directory_path, destination_directory_path, settings)
}

/// Starts moving the directory `source_directory_path` to `destination_directory_path`,
/// with progress reports.
pub fn move_directory_with_progress(
    source_directory_path: String,
    destination_directory_path: String,
    options: DirectoryMoveWithProgressOptions,
) -> (r: (DirectoryMove, FsRequest))
    ensures
        r.0.well_formed(),
        r.0 == (DirectoryMove {
            destination_directory_path,
            settings: move_with_progress_settings(options),
            phase: DirectoryMovePhase::ValidatingSource(SourceDirectoryValidation {
                source_directory_path,
                phase: SourceValidationPhase::AwaitExistence,
            }),
        }),
        r.1@ == (RequestView::SymlinkMetadata { path: source_directory_path@ }),
{
    let may_rename = options.allowed_strategies.allowed_to_rename();
    let (copy_and_delete, progress_settings) = match options.allowed_strategies.into_options_if_allowed_to_copy_and_delete() {
        Some(o) => (
            Some(DirectoryMoveByCopyOptions { symlink_behaviour: o.symlink_behaviour, broken_symlink_behaviour: o.broken_symlink_behaviour }),
            CopyProgressSettings {
                read_buffer_size: o.read_buffer_size,
                write_buffer_size: o.write_buffer_size,
                progress_update_byte_interval: o.progress_update_byte_interval,
            },
        ),
        None => (None, CopyProgressSettings { read_buffer_size: 0, write_buffer_size: 0, progress_update_byte_interval: 0 }),
    };
    let settings = MoveSettings {
        destination_directory_rule: options.destination_directory_rule,
        may_rename,
        copy_and_delete,
        progress_settings: Some(progress_settings),
    };
    DirectoryMove::start(source_directory_path, destination_directory_path, settings)
}

} // verus!
