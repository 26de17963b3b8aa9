//! Preparing a directory copy: validation, planning and the collision check, in sequence.
use vstd::prelude::*;

use super::common::DestinationDirectoryRule;
use super::copy::{BrokenSymlinkBehaviour, DirectoryCopyDepthLimit, SymlinkBehaviour};
use super::planner::{
    operations_view, planner_step_view, CopyPlanner, OperationView, PlanErrorView, PlannerStepView, PlannerView,
    QueuedOperation,
};
use super::prepared::{collision_targets, total_size, CollisionCheck, CollisionCheckView, DirectoryCopyPrepared};
use super::validation::{
    validate_source_destination_directory_pair, DestinationDirectoryState, DestinationDirectoryValidation,
    DestinationValidationPhase, SourceDirectoryValidation, SourceValidationPhase,
    ValidatedDestinationDirectory, ValidatedSourceDirectory,
};
use crate::error::{
    CopyDirectoryPreparationError, DestinationDirectoryPathValidationError,
    DirectoryExecutionPlanError, SourceDirectoryPathValidationError,
};
use crate::path::path_starts_with;
use crate::requests::{is_inspection, FsRequest, FsResponse, MachineStep, RequestView};

verus! {

/// The sum of the sizes of `ops`, saturated at `u64::MAX`.
pub open spec fn saturated_total(ops: Seq<OperationView>) -> u64 {
    if total_size(ops) <= u64::MAX {
        total_size(ops) as u64
    } else {
        u64::MAX
    }
}

/// A prepared copy, with its paths as character sequences.
pub struct PreparedView {
    /// The operations of the copy, in order.
    pub queue: Seq<OperationView>,
    /// The number of bytes the copy accounts for.
    pub total_bytes: u64,
    /// The destination directory to create before the operations, if it does not exist.
    pub root: Option<Seq<char>>,
}

/// The characters of an optional string.
pub open spec fn optional_chars(o: Option<String>) -> Option<Seq<char>> {
    match o {
        Some(s) => Some(s@),
        None => None,
    }
}

/// The view of a prepared copy.
pub open spec fn prepared_view(p: DirectoryCopyPrepared) -> PreparedView {
    PreparedView {
        queue: operations_view(p.operation_queue@),
        total_bytes: p.total_bytes,
        root: optional_chars(p.destination_directory_to_create),
    }
}

/// The prepared copy of `queue`.
pub open spec fn prepared_of(queue: Seq<OperationView>, root: Option<Seq<char>>) -> PreparedView {
    PreparedView { queue, total_bytes: saturated_total(queue), root }
}

/// The constant parts of a copy plan.
pub struct PlanSettings {
    /// The canonical source directory path.
    pub source_root: Seq<char>,
    /// The destination directory path.
    pub destination_root: Seq<char>,
    /// The depth limit.
    pub depth_limit: DirectoryCopyDepthLimit,
    /// Whether symbolic links are kept or followed.
    pub links: SymlinkBehaviour,
    /// What is done with broken symbolic links.
    pub broken_links: BrokenSymlinkBehaviour,
    /// The rule the destination directory's contents must respect.
    pub rule: DestinationDirectoryRule,
    /// The destination directory, when the copy must create it first.
    pub root_to_create: Option<Seq<char>>,
}

/// Where a plan preparation stands.
pub enum PlanStageView {
    /// Planning.
    Planning(PlannerView),
    /// Checking the planned operations against the destination directory rule.
    Checking { queue: Seq<OperationView>, check: CollisionCheckView },
    /// Finished.
    Finished,
}

/// The state of a plan preparation.
pub struct PlanPreparationView {
    /// The constant parts of the plan.
    pub settings: PlanSettings,
    /// Where the preparation stands.
    pub stage: PlanStageView,
}

/// A step of a plan preparation, with its paths as character sequences.
pub enum PlanPreparationStepView {
    /// Perform a request.
    Perform(RequestView),
    /// The preparation finished.
    Finished(Result<PreparedView, PlanErrorView>),
}

/// The view of a plan preparation step.
pub open spec fn plan_preparation_step_view(
    step: MachineStep<Result<DirectoryCopyPrepared, DirectoryExecutionPlanError>>,
) -> PlanPreparationStepView {
    match step {
        MachineStep::Perform(r) => PlanPreparationStepView::Perform(r@),
        MachineStep::Finished(Ok(p)) => PlanPreparationStepView::Finished(Ok(prepared_view(p))),
        MachineStep::Finished(Err(e)) => PlanPreparationStepView::Finished(Err(e@)),
    }
}

/// Where a plan preparation stands.
pub enum PlanStage {
    /// Planning.
    Planning(CopyPlanner),
    /// Checking the planned operations against the destination directory rule.
    Checking { queue: Vec<QueuedOperation>, check: CollisionCheck },
    /// Finished.
    Finished,
}

/// Plans a copy of a validated source directory to a validated destination directory,
/// then checks that the plan respects the destination directory rule before anything is
/// copied, and totals the bytes the copy accounts for.
pub struct CopyPlanPreparation {
    settings: Ghost<PlanSettings>,
    rule: DestinationDirectoryRule,
    destination_to_create: Option<String>,
    stage: PlanStage,
}

impl CopyPlanPreparation {
    /// The state of the preparation.
    pub closed spec fn view_state(&self) -> PlanPreparationView {
        PlanPreparationView {
            settings: self.settings@,
            stage: match self.stage {
                PlanStage::Planning(p) => PlanStageView::Planning(p.state()),
                PlanStage::Checking { queue, check } => PlanStageView::Checking {
                    queue: operations_view(queue@),
                    check: check.view_state(),
                },
                PlanStage::Finished => PlanStageView::Finished,
            },
        }
    }

    /// Whether the preparation's parts agree with each other.
    pub closed spec fn well_formed(&self) -> bool {
        &&& self.rule == self.settings@.rule
        &&& optional_chars(self.destination_to_create) == self.settings@.root_to_create
        &&& match self.stage {
            PlanStage::Planning(p) => {
                &&& p.source_root() == self.settings@.source_root
                &&& p.destination_root() == self.settings@.destination_root
                &&& p.depth_limit() == self.settings@.depth_limit
                &&& p.links() == self.settings@.links
                &&& p.broken_links() == self.settings@.broken_links
            },
            PlanStage::Checking { check, .. } => check.well_formed(),
            PlanStage::Finished => true,
        }
    }

    /// The preparation, finished with `result`.
    pub open spec fn finished_with(
        settings: PlanSettings,
        result: Result<PreparedView, PlanErrorView>,
    ) -> (PlanPreparationView, PlanPreparationStepView) {
        (PlanPreparationView { settings, stage: PlanStageView::Finished }, PlanPreparationStepView::Finished(result))
    }

    /// The preparation after the collision check of `queue` stepped to `check`/`step`.
    pub open spec fn after_check(
        settings: PlanSettings,
        queue: Seq<OperationView>,
        check: CollisionCheckView,
        step: PlannerStepView,
    ) -> (PlanPreparationView, PlanPreparationStepView) {
        match step {
            PlannerStepView::Perform(r) => (
                PlanPreparationView { settings, stage: PlanStageView::Checking { queue, check } },
                PlanPreparationStepView::Perform(r),
            ),
            PlannerStepView::Finished(Err(e)) => Self::finished_with(settings, Err(e)),
            PlannerStepView::Finished(Ok(())) => Self::finished_with(settings, Ok(prepared_of(queue, settings.root_to_create))),
        }
    }

    /// The preparation after the plan stepped to `plan`/`step`.
    pub open spec fn after_plan(
        settings: PlanSettings,
        plan: PlannerView,
        step: PlannerStepView,
    ) -> (PlanPreparationView, PlanPreparationStepView) {
        match step {
            PlannerStepView::Perform(r) => (
                PlanPreparationView { settings, stage: PlanStageView::Planning(plan) },
                PlanPreparationStepView::Perform(r),
            ),
            PlannerStepView::Finished(Err(e)) => Self::finished_with(settings, Err(e)),
            PlannerStepView::Finished(Ok(())) => {
                let (check, check_step) = CollisionCheck::continue_from(collision_targets(plan.queue, settings.rule), 0);
                Self::after_check(settings, plan.queue, check, check_step)
            },
        }
    }

    /// The next state and step of the preparation, given the response to its pending request.
    pub closed spec fn next(&self, response: FsResponse) -> (PlanPreparationView, PlanPreparationStepView) {
        let settings = self.view_state().settings;
        match self.stage {
            PlanStage::Planning(p) => {
                let (plan, step) = p.next(response);
                Self::after_plan(settings, plan, step)
            },
            PlanStage::Checking { queue, check } => {
                let (c, step) = check.next(response);
                Self::after_check(settings, operations_view(queue@), c, step)
            },
            PlanStage::Finished => (self.view_state(), PlanPreparationStepView::Finished(Err(
                PlanErrorView::DestinationItemAlreadyExists { path: settings.destination_root },
            ))),
        }
    }

    /// Whether `response` can resume this preparation.
    pub closed spec fn accepts(&self, response: FsResponse) -> bool {
        match self.stage {
            PlanStage::Planning(p) => p.accepts(response),
            PlanStage::Checking { check, .. } => check.accepts(response),
            PlanStage::Finished => false,
        }
    }

    /// The settings of a plan of a copy of `source` to `destination`.
    pub open spec fn settings_of(
        source: ValidatedSourceDirectory,
        destination: ValidatedDestinationDirectory,
        rule: DestinationDirectoryRule,
        depth_limit: DirectoryCopyDepthLimit,
        links: SymlinkBehaviour,
        broken_links: BrokenSymlinkBehaviour,
    ) -> PlanSettings {
        PlanSettings {
            source_root: source.directory_path@,
            destination_root: destination.directory_path@,
            depth_limit,
            links,
            broken_links,
            rule,
            root_to_create: if destination.state is DoesNotExist && !(links is Keep && source.original_path_was_symlink_to_directory) {
                Some(destination.directory_path@)
            } else {
                None
            },
        }
    }

    /// The state and first step of a preparation of a copy of `source` to `destination`.
    pub open spec fn initial(
        source: ValidatedSourceDirectory,
        destination: ValidatedDestinationDirectory,
        rule: DestinationDirectoryRule,
        depth_limit: DirectoryCopyDepthLimit,
        links: SymlinkBehaviour,
        broken_links: BrokenSymlinkBehaviour,
    ) -> (PlanPreparationView, PlanPreparationStepView) {
        let (plan, step) = CopyPlanner::initial(source, destination, links);
        Self::after_plan(Self::settings_of(source, destination, rule, depth_limit, links, broken_links), plan, step)
    }

    /// A preparation asks for nothing but inspections.
    pub proof fn lemma_next_only_inspects(&self, response: FsResponse)
        ensures
            self.next(response).1 matches PlanPreparationStepView::Perform(r) ==> is_inspection(r),
    {
        match self.stage {
            PlanStage::Planning(p) => {
                p.lemma_next_only_inspects(response);
            },
            _ => {},
        }
    }

    /// The constant parts of a plan stay as they are, whatever the response.
    pub proof fn lemma_next_keeps_settings(&self, response: FsResponse)
        ensures
            self.next(response).0.settings == self.view_state().settings,
    {
    }

    /// A preparation starts with an inspection.
    pub proof fn lemma_initial_only_inspects(
        source: ValidatedSourceDirectory,
        destination: ValidatedDestinationDirectory,
        rule: DestinationDirectoryRule,
        depth_limit: DirectoryCopyDepthLimit,
        links: SymlinkBehaviour,
        broken_links: BrokenSymlinkBehaviour,
    )
        ensures
            Self::initial(source, destination, rule, depth_limit, links, broken_links).1 matches PlanPreparationStepView::Perform(r)
                ==> is_inspection(r),
    {
    }

    /// Starts preparing a copy of `source` to `destination`.
    pub fn start(
        source: ValidatedSourceDirectory,
        destination: ValidatedDestinationDirectory,
        destination_directory_rule: DestinationDirectoryRule,
        copy_depth_limit: DirectoryCopyDepthLimit,
        symlink_behaviour: SymlinkBehaviour,
        broken_symlink_behaviour: BrokenSymlinkBehaviour,
    ) -> (r: (CopyPlanPreparation, MachineStep<Result<DirectoryCopyPrepared, DirectoryExecutionPlanError>>))
        ensures
            r.0.well_formed(),
            (r.0.view_state(), plan_preparation_step_view(r.1)) == Self::initial(
                source,
                destination,
                destination_directory_rule,
                copy_depth_limit,
                symlink_behaviour,
                broken_symlink_behaviour,
            ),
    {
        let ghost settings = Self::settings_of(
            source,
            destination,
            destination_directory_rule,
            copy_depth_limit,
            symlink_behaviour,
            broken_symlink_behaviour,
        );
        let destination_to_create = match (&destination.state, symlink_behaviour) {
            (DestinationDirectoryState::DoesNotExist, SymlinkBehaviour::Follow) => Some(destination.directory_path.clone()),
            (DestinationDirectoryState::DoesNotExist, SymlinkBehaviour::Keep) => if source.original_path_was_symlink_to_directory {
                None
            } else {
                Some(destination.directory_path.clone())
            },
            _ => None,
        };
        let (planner, request) = CopyPlanner::start(
            source,
            destination,
            copy_depth_limit,
            symlink_behaviour,
            broken_symlink_behaviour,
        );
        (
            CopyPlanPreparation {
                settings: Ghost(settings),
                rule: destination_directory_rule,
                destination_to_create,
                stage: PlanStage::Planning(planner),
            },
            MachineStep::Perform(request),
        )
    }

    /// Whether `response` can resume this preparation.
    pub fn can_accept(&self, response: &FsResponse) -> (r: bool)
        ensures
            r == self.accepts(*response),
    {
        match &self.stage {
            PlanStage::Planning(p) => p.can_accept(response),
            PlanStage::Checking { check, .. } => check.can_accept(response),
            PlanStage::Finished => false,
        }
    }

    /// Continues with the collision check of `queue`, which stepped to `check`/`step`.
    fn continue_check(
        &mut self,
        queue: Vec<QueuedOperation>,
        check: CollisionCheck,
        step: MachineStep<Result<(), DirectoryExecutionPlanError>>,
    ) -> (r: MachineStep<Result<DirectoryCopyPrepared, DirectoryExecutionPlanError>>)
        requires
            old(self).rule == old(self).settings@.rule,
            optional_chars(old(self).destination_to_create) == old(self).settings@.root_to_create,
            check.well_formed(),
        ensures
            final(self).well_formed(),
            (final(self).view_state(), plan_preparation_step_view(r)) == Self::after_check(
                old(self).settings@,
                operations_view(queue@),
                check.view_state(),
                planner_step_view(step),
            ),
    {
        match step {
            MachineStep::Perform(request) => {
                self.stage = PlanStage::Checking { queue, check };
                MachineStep::Perform(request)
            },
            MachineStep::Finished(Err(e)) => {
                self.stage = PlanStage::Finished;
                MachineStep::Finished(Err(e))
            },
            MachineStep::Finished(Ok(())) => {
                self.stage = PlanStage::Finished;
                MachineStep::Finished(Ok(DirectoryCopyPrepared::from_queue(queue, self.destination_to_create.clone())))
            },
        }
    }

    /// Resumes the preparation with the response to its pending request.
    pub fn resume(&mut self, response: FsResponse) -> (step: MachineStep<Result<DirectoryCopyPrepared, DirectoryExecutionPlanError>>)
        requires
            old(self).well_formed(),
            old(self).accepts(response),
        ensures
            final(self).well_formed(),
            (final(self).view_state(), plan_preparation_step_view(step)) == old(self).next(response),
    {
        let mut stage = PlanStage::Finished;
        std::mem::swap(&mut stage, &mut self.stage);
        match stage {
            PlanStage::Planning(mut planner) => {
                let step = planner.resume(response);
                match step {
                    MachineStep::Perform(request) => {
                        self.stage = PlanStage::Planning(planner);
                        MachineStep::Perform(request)
                    },
                    MachineStep::Finished(Err(e)) => MachineStep::Finished(Err(e)),
                    MachineStep::Finished(Ok(())) => {
                        let queue = planner.into_queue();
                        let (check, check_step) = CollisionCheck::start(&queue, self.rule);
                        self.continue_check(queue, check, check_step)
                    },
                }
            },
            PlanStage::Checking { queue, mut check } => {
                let check_step = check.resume(response);
                self.continue_check(queue, check, check_step)
            },
            PlanStage::Finished => {
                MachineStep::Finished(Err(DirectoryExecutionPlanError::DestinationItemAlreadyExists { path: String::new() }))
            },
        }
    }
}

/// A directory copy preparation error, with planning errors' paths as character sequences.
pub enum CopyPreparationErrorView {
    /// The source directory is invalid.
    Source(SourceDirectoryPathValidationError),
    /// The destination directory is invalid.
    Destination(DestinationDirectoryPathValidationError),
    /// Planning the copy failed.
    Planning(PlanErrorView),
}

/// The view of a directory copy preparation error.
pub open spec fn preparation_error_view(e: CopyDirectoryPreparationError) -> CopyPreparationErrorView {
    match e {
        CopyDirectoryPreparationError::SourceDirectoryValidationError(s) => CopyPreparationErrorView::Source(s),
        CopyDirectoryPreparationError::DestinationDirectoryValidationError(d) => CopyPreparationErrorView::Destination(d),
        CopyDirectoryPreparationError::CopyPlanningError(p) => CopyPreparationErrorView::Planning(p@),
    }
}

/// A step of a directory copy preparation, with its paths as character sequences.
pub enum CopyPreparationStepView {
    /// Perform a request.
    Perform(RequestView),
    /// The preparation finished.
    Finished(Result<PreparedView, CopyPreparationErrorView>),
}

/// The view of a directory copy preparation step.
pub open spec fn copy_preparation_step_view(
    step: MachineStep<Result<DirectoryCopyPrepared, CopyDirectoryPreparationError>>,
) -> CopyPreparationStepView {
    match step {
        MachineStep::Perform(r) => CopyPreparationStepView::Perform(r@),
        MachineStep::Finished(Ok(p)) => CopyPreparationStepView::Finished(Ok(prepared_view(p))),
        MachineStep::Finished(Err(e)) => CopyPreparationStepView::Finished(Err(preparation_error_view(e))),
    }
}

/// Where a directory copy preparation stands.
pub enum CopyPreparationStage {
    /// Validating the source directory.
    ValidatingSource(SourceDirectoryValidation),
    /// Validating the destination directory.
    ValidatingDestination { source: ValidatedSourceDirectory, validation: DestinationDirectoryValidation },
    /// Planning the copy and checking the plan.
    Planning(CopyPlanPreparation),
    /// Finished.
    Finished,
}

/// Where a directory copy preparation stands, with the plan as a view.
pub enum CopyPreparationStageView {
    /// Validating the source directory.
    ValidatingSource(SourceDirectoryValidation),
    /// Validating the destination directory.
    ValidatingDestination { source: ValidatedSourceDirectory, validation: DestinationDirectoryValidation },
    /// Planning the copy and checking the plan.
    Planning(PlanPreparationView),
    /// Finished.
    Finished,
}

/// Prepares a directory copy: validates the source directory, then the destination directory
/// against the destination rule, ensures the destination does not lie inside the source, plans
/// the copy and checks the plan against the destination rule.
pub struct DirectoryCopyPreparation {
    /// The destination directory path, as given.
    pub destination_directory_path: String,
    /// The rule the destination directory must respect.
    pub destination_directory_rule: DestinationDirectoryRule,
    /// Maximum depth of the source directory to copy.
    pub copy_depth_limit: DirectoryCopyDepthLimit,
    /// The behaviour for symbolic links.
    pub symlink_behaviour: SymlinkBehaviour,
    /// The behaviour for broken symbolic links.
    pub broken_symlink_behaviour: BrokenSymlinkBehaviour,
    /// Where the preparation stands.
    pub stage: CopyPreparationStage,
}

impl DirectoryCopyPreparation {
    /// Where the preparation stands.
    pub open spec fn stage_view(&self) -> CopyPreparationStageView {
        match self.stage {
            CopyPreparationStage::ValidatingSource(v) => CopyPreparationStageView::ValidatingSource(v),
            CopyPreparationStage::ValidatingDestination { source, validation } => {
                CopyPreparationStageView::ValidatingDestination { source, validation }
            },
            CopyPreparationStage::Planning(p) => CopyPreparationStageView::Planning(p.view_state()),
            CopyPreparationStage::Finished => CopyPreparationStageView::Finished,
        }
    }

    /// Whether the preparation's parts agree with each other.
    pub open spec fn well_formed(&self) -> bool {
        self.stage matches CopyPreparationStage::Planning(p) ==> p.well_formed()
    }

    /// The step that corresponds to a plan preparation step.
    pub open spec fn plan_step(step: PlanPreparationStepView) -> CopyPreparationStepView {
        match step {
            PlanPreparationStepView::Perform(r) => CopyPreparationStepView::Perform(r),
            PlanPreparationStepView::Finished(Ok(p)) => CopyPreparationStepView::Finished(Ok(p)),
            PlanPreparationStepView::Finished(Err(e)) => CopyPreparationStepView::Finished(Err(CopyPreparationErrorView::Planning(e))),
        }
    }

    /// The stage and step after both directories were validated.
    pub open spec fn after_validation(
        &self,
        source: ValidatedSourceDirectory,
        destination: ValidatedDestinationDirectory,
    ) -> (CopyPreparationStageView, CopyPreparationStepView) {
        if path_starts_with(destination.directory_path@, source.directory_path@) {
            (
                CopyPreparationStageView::Finished,
                CopyPreparationStepView::Finished(Err(CopyPreparationErrorView::Destination(
                    DestinationDirectoryPathValidationError::DescendantOfSourceDirectory {
                        destination_directory_path: destination.directory_path,
                        source_directory_path: source.directory_path,
                    },
                ))),
            )
        } else {
            let (plan, step) = CopyPlanPreparation::initial(
                source,
                destination,
                self.destination_directory_rule,
                self.copy_depth_limit,
                self.symlink_behaviour,
                self.broken_symlink_behaviour,
            );
            (
                if step is Perform { CopyPreparationStageView::Planning(plan) } else { CopyPreparationStageView::Finished },
                Self::plan_step(step),
            )
        }
    }

    /// The validation of the destination directory.
    pub open spec fn destination_validation(&self) -> DestinationDirectoryValidation {
        DestinationDirectoryValidation {
            destination_directory_path: self.destination_directory_path,
            destination_directory_rule: self.destination_directory_rule,
            phase: DestinationValidationPhase::AwaitExistence,
        }
    }

    /// The next stage and step of the preparation, given the response to its pending request.
    pub open spec fn next(&self, response: FsResponse) -> (CopyPreparationStageView, CopyPreparationStepView) {
        match self.stage {
            CopyPreparationStage::ValidatingSource(v) => {
                let (v2, step) = v.next(response);
                match step {
                    MachineStep::Perform(r) => (CopyPreparationStageView::ValidatingSource(v2), CopyPreparationStepView::Perform(r@)),
                    MachineStep::Finished(Err(e)) => (
                        CopyPreparationStageView::Finished,
                        CopyPreparationStepView::Finished(Err(CopyPreparationErrorView::Source(e))),
                    ),
                    MachineStep::Finished(Ok(source)) => (
                        CopyPreparationStageView::ValidatingDestination { source, validation: self.destination_validation() },
                        CopyPreparationStepView::Perform(RequestView::SymlinkMetadata { path: self.destination_directory_path@ }),
                    ),
                }
            },
            CopyPreparationStage::ValidatingDestination { source, validation } => {
                let (v2, step) = validation.next(response);
                match step {
                    MachineStep::Perform(r) => (
                        CopyPreparationStageView::ValidatingDestination { source, validation: v2 },
                        CopyPreparationStepView::Perform(r@),
                    ),
                    MachineStep::Finished(Err(e)) => (
                        CopyPreparationStageView::Finished,
                        CopyPreparationStepView::Finished(Err(CopyPreparationErrorView::Destination(e))),
                    ),
                    MachineStep::Finished(Ok(destination)) => self.after_validation(source, destination),
                }
            },
            CopyPreparationStage::Planning(p) => {
                let (plan, step) = p.next(response);
                (
                    if step is Perform { CopyPreparationStageView::Planning(plan) } else { CopyPreparationStageView::Finished },
                    Self::plan_step(step),
                )
            },
            CopyPreparationStage::Finished => (CopyPreparationStageView::Finished, CopyPreparationStepView::Perform(
                RequestView::SymlinkMetadata { path: self.destination_directory_path@ },
            )),
        }
    }

    /// Whether `response` can resume this preparation.
    pub open spec fn accepts(&self, response: FsResponse) -> bool {
        match self.stage {
            CopyPreparationStage::ValidatingSource(v) => v.accepts(response),
            CopyPreparationStage::ValidatingDestination { validation, .. } => validation.accepts(response),
            CopyPreparationStage::Planning(p) => p.accepts(response),
            CopyPreparationStage::Finished => false,
        }
    }

    /// Starts preparing a copy of `source_directory_path` to `destination_directory_path`.
    pub fn start(
        source_directory_path: String,
        destination_directory_path: String,
        destination_directory_rule: DestinationDirectoryRule,
        copy_depth_limit: DirectoryCopyDepthLimit,
        symlink_behaviour: SymlinkBehaviour,
        broken_symlink_behaviour: BrokenSymlinkBehaviour,
    ) -> (r: (DirectoryCopyPreparation, FsRequest))
        ensures
            r.0.well_formed(),
            r.0.destination_directory_path == destination_directory_path,
            r.0.destination_directory_rule == destination_directory_rule,
            r.0.copy_depth_limit == copy_depth_limit,
            r.0.symlink_behaviour == symlink_behaviour,
            r.0.broken_symlink_behaviour == broken_symlink_behaviour,
            r.0.stage == CopyPreparationStage::ValidatingSource(SourceDirectoryValidation {
                source_directory_path,
                phase: SourceValidationPhase::AwaitExistence,
            }),
            r.1@ == (RequestView::SymlinkMetadata { path: source_directory_path@ }),
    {
        let (validation, request) = SourceDirectoryValidation::start(source_directory_path);
        (
            DirectoryCopyPreparation {
                destination_directory_path,
                destination_directory_rule,
                copy_depth_limit,
                symlink_behaviour,
                broken_symlink_behaviour,
                stage: CopyPreparationStage::ValidatingSource(validation),
            },
            request,
        )
    }

    /// Whether `response` can resume this preparation.
    pub fn can_accept(&self, response: &FsResponse) -> (r: bool)
        ensures
            r == self.accepts(*response),
    {
        match &self.stage {
            CopyPreparationStage::ValidatingSource(v) => v.can_accept(response),
            CopyPreparationStage::ValidatingDestination { validation, .. } => validation.can_accept(response),
            CopyPreparationStage::Planning(p) => p.can_accept(response),
            CopyPreparationStage::Finished => false,
        }
    }

    /// Continues with a plan preparation that stepped to `plan`/`step`.
    fn continue_plan(
        &mut self,
        plan: CopyPlanPreparation,
        step: MachineStep<Result<DirectoryCopyPrepared, DirectoryExecutionPlanError>>,
    ) -> (r: MachineStep<Result<DirectoryCopyPrepared, CopyDirectoryPreparationError>>)
        requires
            plan.well_formed(),
        ensures
            final(self).well_formed(),
            final(self).destination_directory_path == old(self).destination_directory_path,
            final(self).destination_directory_rule == old(self).destination_directory_rule,
            final(self).copy_depth_limit == old(self).copy_depth_limit,
            final(self).symlink_behaviour == old(self).symlink_behaviour,
            final(self).broken_symlink_behaviour == old(self).broken_symlink_behaviour,
            (final(self).stage_view(), copy_preparation_step_view(r)) == (
                if step is Perform { CopyPreparationStageView::Planning(plan.view_state()) } else { CopyPreparationStageView::Finished },
                Self::plan_step(plan_preparation_step_view(step)),
            ),
    {
        match step {
            MachineStep::Perform(request) => {
                self.stage = CopyPreparationStage::Planning(plan);
                MachineStep::Perform(request)
            },
            MachineStep::Finished(Err(e)) => {
                self.stage = CopyPreparationStage::Finished;
                MachineStep::Finished(Err(CopyDirectoryPreparationError::CopyPlanningError(e)))
            },
            MachineStep::Finished(Ok(prepared)) => {
                self.stage = CopyPreparationStage::Finished;
                MachineStep::Finished(Ok(prepared))
            },
        }
    }

    /// Resumes the preparation with the response to its pending request.
    pub fn resume(&mut self, response: FsResponse) -> (step: MachineStep<Result<DirectoryCopyPrepared, CopyDirectoryPreparationError>>)
        requires
            old(self).well_formed(),
            old(self).accepts(response),
        ensures
            final(self).well_formed(),
            final(self).destination_directory_path == old(self).destination_directory_path,
            final(self).destination_directory_rule == old(self).destination_directory_rule,
            final(self).copy_depth_limit == old(self).copy_depth_limit,
            final(self).symlink_behaviour == old(self).symlink_behaviour,
            final(self).broken_symlink_behaviour == old(self).broken_symlink_behaviour,
            (final(self).stage_view(), copy_preparation_step_view(step)) == old(self).next(response),
    {
        let mut stage = CopyPreparationStage::Finished;
        std::mem::swap(&mut stage, &mut self.stage);
        match stage {
            CopyPreparationStage::ValidatingSource(mut validation) => match validation.resume(response) {
                MachineStep::Perform(request) => {
                    self.stage = CopyPreparationStage::ValidatingSource(validation);
                    MachineStep::Perform(request)
                },
                MachineStep::Finished(Err(e)) => MachineStep::Finished(Err(
                    CopyDirectoryPreparationError::SourceDirectoryValidationError(e),
                )),
                MachineStep::Finished(Ok(source)) => {
                    let (destination_validation, request) = DestinationDirectoryValidation::start(
                        self.destination_directory_path.clone(),
                        self.destination_directory_rule,
                    );
                    self.stage = CopyPreparationStage::ValidatingDestination {
                        source,
                        validation: destination_validation,
                    };
                    MachineStep::Perform(request)
                },
            },
            CopyPreparationStage::ValidatingDestination { source, mut validation } => match validation.resume(response) {
                MachineStep::Perform(request) => {
                    self.stage = CopyPreparationStage::ValidatingDestination { source, validation };
                    MachineStep::Perform(request)
                },
                MachineStep::Finished(Err(e)) => MachineStep::Finished(Err(
                    CopyDirectoryPreparationError::DestinationDirectoryValidationError(e),
                )),
                MachineStep::Finished(Ok(destination)) => {
                    match validate_source_destination_directory_pair(&source.directory_path, &destination.directory_path) {
                        Err(e) => MachineStep::Finished(Err(
                            CopyDirectoryPreparationError::DestinationDirectoryValidationError(e),
                        )),
                        Ok(()) => {
                            let (plan, step) = CopyPlanPreparation::start(
                                source,
                                destination,
                                self.destination_directory_rule,
                                self.copy_depth_limit,
                                self.symlink_behaviour,
                                self.broken_symlink_behaviour,
                            );
                            self.continue_plan(plan, step)
                        },
                    }
                },
            },
            CopyPreparationStage::Planning(mut plan) => {
                let step = plan.resume(response);
                self.continue_plan(plan, step)
            },
            CopyPreparationStage::Finished => MachineStep::Finished(Err(
                CopyDirectoryPreparationError::DestinationDirectoryValidationError(
                    DestinationDirectoryPathValidationError::NotADirectory {
                        directory_path: self.destination_directory_path.clone(),
                    },
                ),
            )),
        }
    }
}

impl DirectoryCopyPrepared {
    /// Starts preparing a copy of `source_directory_path` to `destination_directory_path`:
    /// both directories are validated, then the copy is planned and checked.
    pub fn prepare(
        source_directory_path: String,
        destination_directory_path: String,
        destination_directory_rule: DestinationDirectoryRule,
        copy_depth_limit: DirectoryCopyDepthLimit,
        symlink_behaviour: SymlinkBehaviour,
        broken_symlink_behaviour: BrokenSymlinkBehaviour,
    ) -> (r: (DirectoryCopyPreparation, FsRequest))
        ensures
            r.0.well_formed(),
            r.0 == (DirectoryCopyPreparation {
                destination_directory_path,
                destination_directory_rule,
                copy_depth_limit,
                symlink_behaviour,
                broken_symlink_behaviour,
                stage: CopyPreparationStage::ValidatingSource(SourceDirectoryValidation {
                    source_directory_path,
                    phase: SourceValidationPhase::AwaitExistence,
                }),
            }),
            r.1@ == (RequestView::SymlinkMetadata { path: source_directory_path@ }),
    {
        DirectoryCopyPreparation::start(
            source_directory_path,
            destination_directory_path,
            destination_directory_rule,
            copy_depth_limit,
            symlink_behaviour,
            broken_symlink_behaviour,
        )
    }

    /// Starts preparing a copy of an already validated source directory to an already
    /// validated destination directory: the copy is planned and checked.
    pub fn prepare_with_validated(
        validated_source_directory: ValidatedSourceDirectory,
        validated_destination_directory: ValidatedDestinationDirectory,
        destination_directory_rule: DestinationDirectoryRule,
        copy_depth_limit: DirectoryCopyDepthLimit,
        symlink_behaviour: SymlinkBehaviour,
        broken_symlink_behaviour: BrokenSymlinkBehaviour,
    ) -> (r: (CopyPlanPreparation, MachineStep<Result<DirectoryCopyPrepared, DirectoryExecutionPlanError>>))
        ensures
            r.0.well_formed(),
            (r.0.view_state(), plan_preparation_step_view(r.1)) == CopyPlanPreparation::initial(
                validated_source_directory,
                validated_destination_directory,
                destination_directory_rule,
                copy_depth_limit,
                symlink_behaviour,
                broken_symlink_behaviour,
            ),
    {
        CopyPlanPreparation::start(
            validated_source_directory,
            validated_destination_directory,
            destination_directory_rule,
            copy_depth_limit,
            symlink_behaviour,
            broken_symlink_behaviour,
        )
    }
}

} // verus!
