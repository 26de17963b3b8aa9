//! Checking a copy plan against the destination directory rule, and the prepared copy.
use vstd::prelude::*;

use super::common::DestinationDirectoryRule;
use super::planner::{operations_view, planner_step_view, OperationView, PlanErrorView, PlannerStepView, QueuedOperation};
use crate::error::DirectoryExecutionPlanError;
use crate::requests::{existence_of, FsRequest, FsResponse, MachineStep, RequestView};

verus! {

/// Whether `rule` asks that the path `op` creates or writes does not exist yet.
pub open spec fn needs_collision_check(rule: DestinationDirectoryRule, op: OperationView) -> bool {
    match op {
        OperationView::CreateDirectory { .. } => !rule.keeps_existing_subdirectories(),
        _ => !rule.overwrites_files(),
    }
}

/// The paths of `ops` that must not exist yet under `rule`, in queue order.
pub open spec fn collision_targets(ops: Seq<OperationView>, rule: DestinationDirectoryRule) -> Seq<Seq<char>>
    decreases ops.len(),
{
    if ops.len() == 0 {
        Seq::empty()
    } else {
        collision_targets(ops.drop_last(), rule) + if needs_collision_check(rule, ops.last()) {
            seq![ops.last().target_path()]
        } else {
            Seq::empty()
        }
    }
}

/// The state of a collision check: the paths to check, and how many of them were found free.
pub struct CollisionCheckView {
    /// The paths that must not exist yet, in queue order.
    pub targets: Seq<Seq<char>>,
    /// How many of them were found not to exist.
    pub checked: int,
    /// Whether the check has finished.
    pub finished: bool,
}

/// Checks, before anything is copied, that the paths a copy plan would create or write
/// do not exist yet where the destination directory rule forbids it.
///
/// With a rule that allows overwriting files and keeping existing sub-directories,
/// nothing needs checking.
pub struct CollisionCheck {
    targets: Vec<String>,
    checked: usize,
    finished: bool,
}

impl CollisionCheck {
    /// The state of the check.
    pub closed spec fn view_state(&self) -> CollisionCheckView {
        CollisionCheckView {
            targets: self.targets@.map_values(|t: String| t@),
            checked: self.checked as int,
            finished: self.finished,
        }
    }

    /// Whether the state is consistent.
    pub open spec fn well_formed(&self) -> bool {
        let v = self.view_state();
        &&& 0 <= v.checked <= v.targets.len()
        &&& !v.finished ==> v.checked < v.targets.len()
    }

    /// The step that continues a check that found `checked` paths free.
    pub open spec fn continue_from(targets: Seq<Seq<char>>, checked: int) -> (CollisionCheckView, PlannerStepView) {
        if checked < targets.len() {
            (
                CollisionCheckView { targets, checked, finished: false },
                PlannerStepView::Perform(RequestView::SymlinkMetadata { path: targets[checked] }),
            )
        } else {
            (CollisionCheckView { targets, checked, finished: true }, PlannerStepView::Finished(Ok(())))
        }
    }

    /// The next state and step of the check, given the metadata of the path being checked.
    pub open spec fn next(&self, response: FsResponse) -> (CollisionCheckView, PlannerStepView) {
        let v = self.view_state();
        let path = v.targets[v.checked];
        match response {
            FsResponse::Metadata(m) => match existence_of(m) {
                Err(e) => (
                    CollisionCheckView { finished: true, ..v },
                    PlannerStepView::Finished(Err(PlanErrorView::UnableToAccess { path, error: e })),
                ),
                Ok(true) => (
                    CollisionCheckView { finished: true, ..v },
                    PlannerStepView::Finished(Err(PlanErrorView::DestinationItemAlreadyExists { path })),
                ),
                Ok(false) => Self::continue_from(v.targets, v.checked + 1),
            },
            _ => (v, PlannerStepView::Finished(Ok(()))),
        }
    }

    /// Whether `response` can resume this check.
    pub open spec fn accepts(&self, response: FsResponse) -> bool {
        !self.view_state().finished && response is Metadata
    }

    /// Collects the paths of `queue` that must not exist yet under `rule`.
    fn targets_of(queue: &Vec<QueuedOperation>, rule: DestinationDirectoryRule) -> (r: Vec<String>)
        ensures
            r@.map_values(|t: String| t@) == collision_targets(operations_view(queue@), rule),
    {
        let overwrite_files = rule.allows_overwriting_existing_destination_files();
        let keep_subdirectories = rule.allows_existing_destination_subdirectories();
        let mut targets: Vec<String> = Vec::new();
        let mut i: usize = 0;
        while i < queue.len()
            invariant
                i <= queue.len(),
                overwrite_files == rule.overwrites_files(),
                keep_subdirectories == rule.keeps_existing_subdirectories(),
                targets@.map_values(|t: String| t@) == collision_targets(operations_view(queue@.take(i as int)), rule),
            decreases queue.len() - i,
        {
            let ghost before = targets@.map_values(|t: String| t@);
            let (checked, path) = match &queue[i] {
                QueuedOperation::CopyFile { destination_file_path, .. } => (!overwrite_files, destination_file_path),
                QueuedOperation::CreateDirectory { destination_directory_path, .. } => (!keep_subdirectories, destination_directory_path),
                QueuedOperation::CreateSymlink { symlink_path, .. } => (!overwrite_files, symlink_path),
            };
            proof {
                let ops = operations_view(queue@.take(i as int + 1));
                assert(ops.drop_last() =~= operations_view(queue@.take(i as int)));
                assert(ops.last() == queue@[i as int]@);
                assert(checked == needs_collision_check(rule, ops.last()));
                assert(path@ == ops.last().target_path());
            }
            if checked {
                targets.push(path.clone());
                proof {
                    assert(targets@.map_values(|t: String| t@) =~= before + seq![path@]);
                }
            } else {
                proof {
                    assert(before + Seq::<Seq<char>>::empty() =~= before);
                }
            }
            i = i + 1;
        }
        proof {
            assert(queue@.take(queue.len() as int) =~= queue@);
        }
        targets
    }

    /// Starts checking the paths of `queue` against `rule`.
    pub fn start(queue: &Vec<QueuedOperation>, rule: DestinationDirectoryRule) -> (r: (CollisionCheck, MachineStep<Result<(), DirectoryExecutionPlanError>>))
        ensures
            r.0.well_formed(),
            (r.0.view_state(), planner_step_view(r.1)) == Self::continue_from(collision_targets(operations_view(queue@), rule), 0),
    {
        let targets = Self::targets_of(queue, rule);
        Self::resume_from(targets, 0)
    }

    /// The check of `targets`, `checked` of which were found free.
    fn resume_from(targets: Vec<String>, checked: usize) -> (r: (CollisionCheck, MachineStep<Result<(), DirectoryExecutionPlanError>>))
        requires
            checked <= targets.len(),
        ensures
            r.0.well_formed(),
            (r.0.view_state(), planner_step_view(r.1)) == Self::continue_from(targets@.map_values(|t: String| t@), checked as int),
    {
        if checked < targets.len() {
            let request = FsRequest::SymlinkMetadata { path: targets[checked].clone() };
            (CollisionCheck { targets, checked, finished: false }, MachineStep::Perform(request))
        } else {
            (CollisionCheck { targets, checked, finished: true }, MachineStep::Finished(Ok(())))
        }
    }

    /// Whether `response` can resume this check.
    pub fn can_accept(&self, response: &FsResponse) -> (r: bool)
        ensures
            r == self.accepts(*response),
    {
        !self.finished && matches!(response, FsResponse::Metadata(_))
    }

    /// Resumes the check with the metadata of the path being checked.
    pub fn resume(&mut self, response: FsResponse) -> (step: MachineStep<Result<(), DirectoryExecutionPlanError>>)
        requires
            old(self).well_formed(),
            old(self).accepts(response),
        ensures
            final(self).well_formed(),
            (final(self).view_state(), planner_step_view(step)) == old(self).next(response),
    {
        proof {
            assert(self.targets@.map_values(|t: String| t@).len() == self.targets.len());
        }
        let path = self.targets[self.checked].clone();
        let next_checked = self.checked + 1;
        match response {
            FsResponse::Metadata(m) => match m {
                Ok(_) => {
                    self.finished = true;
                    MachineStep::Finished(Err(DirectoryExecutionPlanError::DestinationItemAlreadyExists { path }))
                },
                Err(failure) => if failure.not_found {
                    let mut targets: Vec<String> = Vec::new();
                    std::mem::swap(&mut targets, &mut self.targets);
                    let (check, step) = Self::resume_from(targets, next_checked);
                    *self = check;
                    step
                } else {
                    self.finished = true;
                    MachineStep::Finished(Err(DirectoryExecutionPlanError::UnableToAccess { path, error: failure.error }))
                },
            },
            _ => MachineStep::Finished(Ok(())),
        }
    }
}

/// The sum of the sizes of `ops`.
pub open spec fn total_size(ops: Seq<OperationView>) -> int
    decreases ops.len(),
{
    if ops.len() == 0 {
        0
    } else {
        total_size(ops.drop_last()) + ops.last().size()
    }
}

/// The operations that together copy a directory, and how many bytes they copy.
#[derive(Debug)]
pub struct DirectoryCopyPrepared {
    /// The file copies, directory creations and symbolic link creations, in order.
    pub operation_queue: Vec<QueuedOperation>,
    /// How many bytes the copy accounts for (the sum of the sizes of its operations).
    pub total_bytes: u64,
    /// The destination directory, when it does not exist yet: the queue leaves its creation
    /// to whoever executes the queue, before the queued operations.
    pub destination_directory_to_create: Option<String>,
}

impl DirectoryCopyPrepared {
    /// The sum of the sizes of the queued operations, saturated at `u64::MAX`.
    pub fn calculate_total_bytes_to_be_copied(queued_operations: &Vec<QueuedOperation>) -> (r: u64)
        ensures
            r == if total_size(operations_view(queued_operations@)) <= u64::MAX {
                total_size(operations_view(queued_operations@))
            } else {
                u64::MAX as int
            },
    {
        let mut total: u64 = 0;
        let mut saturated = false;
        let mut i: usize = 0;
        while i < queued_operations.len()
            invariant
                i <= queued_operations.len(),
                saturated ==> total == u64::MAX && total_size(operations_view(queued_operations@.take(i as int))) > u64::MAX,
                !saturated ==> total == total_size(operations_view(queued_operations@.take(i as int))),
            decreases queued_operations.len() - i,
        {
            let size = match &queued_operations[i] {
                QueuedOperation::CopyFile { source_size_bytes, .. } => *source_size_bytes,
                QueuedOperation::CreateDirectory { source_size_bytes, .. } => *source_size_bytes,
                QueuedOperation::CreateSymlink { source_symlink_size_bytes, .. } => *source_symlink_size_bytes,
            };
            proof {
                let ops = operations_view(queued_operations@.take(i as int + 1));
                assert(ops.drop_last() =~= operations_view(queued_operations@.take(i as int)));
                assert(ops.last() == queued_operations@[i as int]@);
                assert(total_size(ops) == total_size(ops.drop_last()) + size);
            }
            if !saturated {
                match total.checked_add(size) {
                    Some(t) => total = t,
                    None => {
                        total = u64::MAX;
                        saturated = true;
                    },
                }
            }
            i = i + 1;
        }
        proof {
            assert(queued_operations@.take(queued_operations.len() as int) =~= queued_operations@);
        }
        total
    }

    /// The prepared copy of the operations `operation_queue`, which leaves the creation of
    /// `destination_directory_to_create`, if any, to its executor.
    pub fn from_queue(operation_queue: Vec<QueuedOperation>, destination_directory_to_create: Option<String>) -> (r: Self)
        ensures
            r.operation_queue@ == operation_queue@,
            r.destination_directory_to_create == destination_directory_to_create,
            r.total_bytes == if total_size(operations_view(operation_queue@)) <= u64::MAX {
                total_size(operations_view(operation_queue@))
            } else {
                u64::MAX as int
            },
    {
        let total_bytes = Self::calculate_total_bytes_to_be_copied(&operation_queue);
        DirectoryCopyPrepared { operation_queue, total_bytes, destination_directory_to_create }
    }
}

} // verus!
