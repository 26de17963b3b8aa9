//! Executing a prepared directory copy, with or without progress reporting.
use vstd::prelude::*;

use super::common::DestinationDirectoryRule;
use super::copy::DirectoryCopyFinished;
use super::copy::{DirectoryCopyOptions, DirectoryCopyWithProgressOptions};
use super::planner::{operations_view, OperationView, QueuedOperation};
use super::preparation::{preparation_error_view, prepared_view, CopyPreparationStage, CopyPreparationStepView, DirectoryCopyPreparation, PreparedView};
use super::prepared::DirectoryCopyPrepared;
use super::validation::{SourceDirectoryValidation, SourceValidationPhase};
use crate::error::{CopyDirectoryError, CopyDirectoryExecutionError};
use crate::file::{
    CollidingFileBehaviour, FileProgress, FileTransfer, FileTransferPhase, TransferMode,
    TransferOutcome,
};
use crate::requests::{existence_of, reports_directory, EntryType, FsRequest, FsResponse, MachineStep};

verus! {

/// Describes a directory copy operation, for progress reporting.
#[derive(Clone, PartialEq, Eq, Debug)]
pub enum DirectoryCopyOperation {
    /// A directory is being created.
    CreatingDirectory {
        /// Path to the directory that is being created.
        destination_directory_path: String,
    },
    /// A file is being copied.
    CopyingFile {
        /// Path to the file that is being created.
        destination_file_path: String,
        /// Progress of the file copy operation.
        progress: FileProgress,
    },
    /// A symbolic link is being created.
    CreatingSymbolicLink {
        /// Path to the symlink being created.
        destination_symbolic_link_file_path: String,
    },
}

impl DirectoryCopyOperation {
    /// A copy of this operation.
    pub fn duplicate(&self) -> (r: Self)
        ensures
            r == *self,
    {
        match self {
            DirectoryCopyOperation::CreatingDirectory { destination_directory_path } => {
                DirectoryCopyOperation::CreatingDirectory {
                    destination_directory_path: destination_directory_path.clone(),
                }
            },
            DirectoryCopyOperation::CopyingFile { destination_file_path, progress } => {
                DirectoryCopyOperation::CopyingFile {
                    destination_file_path: destination_file_path.clone(),
                    progress: *progress,
                }
            },
            DirectoryCopyOperation::CreatingSymbolicLink { destination_symbolic_link_file_path } => {
                DirectoryCopyOperation::CreatingSymbolicLink {
                    destination_symbolic_link_file_path: destination_symbolic_link_file_path.clone(),
                }
            },
        }
    }
}

/// Directory copying progress, with the current operation borrowed.
#[derive(Clone, PartialEq, Eq, Debug)]
pub struct DirectoryCopyProgressRef<'o> {
    /// Total number of bytes that need to be copied for the directory copy to be complete.
    pub bytes_total: u64,
    /// Number of bytes that have been copied so far.
    pub bytes_finished: u64,
    /// Number of files that have been copied so far.
    pub files_copied: usize,
    /// Number of symlinks that have been (re)created so far.
    pub symlinks_created: usize,
    /// Number of directories that have been created so far.
    pub directories_created: usize,
    /// The current operation being performed.
    pub current_operation: &'o DirectoryCopyOperation,
    /// The index of the current operation (starts at `0`).
    pub current_operation_index: usize,
    /// The total amount of operations that need to be performed to copy the directory.
    pub total_operations: usize,
}

/// Directory copying progress.
#[derive(Clone, PartialEq, Eq, Debug)]
pub struct DirectoryCopyProgress {
    /// Total number of bytes that need to be copied for the directory copy to be complete.
    pub bytes_total: u64,
    /// Number of bytes that have been copied so far.
    pub bytes_finished: u64,
    /// Number of files that have been copied so far.
    pub files_copied: usize,
    /// Number of symlinks that have been (re)created so far.
    pub symlinks_created: usize,
    /// Number of directories that have been created so far.
    pub directories_created: usize,
    /// The current operation being performed.
    pub current_operation: DirectoryCopyOperation,
    /// The index of the current operation (starts at `0`).
    pub current_operation_index: usize,
    /// The total amount of operations that need to be performed to copy the directory.
    pub total_operations: usize,
}

impl<'o> DirectoryCopyProgressRef<'o> {
    /// An owned copy of this progress.
    pub fn to_owned_progress(&self) -> (r: DirectoryCopyProgress)
        ensures
            r.bytes_total == self.bytes_total,
            r.bytes_finished == self.bytes_finished,
            r.files_copied == self.files_copied,
            r.symlinks_created == self.symlinks_created,
            r.directories_created == self.directories_created,
            r.current_operation == *self.current_operation,
            r.current_operation_index == self.current_operation_index,
            r.total_operations == self.total_operations,
    {
        DirectoryCopyProgress {
            bytes_total: self.bytes_total,
            bytes_finished: self.bytes_finished,
            files_copied: self.files_copied,
            symlinks_created: self.symlinks_created,
            directories_created: self.directories_created,
            current_operation: self.current_operation.duplicate(),
            current_operation_index: self.current_operation_index,
            total_operations: self.total_operations,
        }
    }
}

/// The progress of a directory copy while it runs.
#[derive(Debug)]
pub struct DirectoryCopyInternalProgress {
    /// Total number of bytes that need to be copied for the directory copy to be complete.
    pub bytes_total: u64,
    /// Number of bytes that have been copied so far.
    pub bytes_finished: u64,
    /// Number of files that have been copied so far.
    pub files_copied: usize,
    /// Number of symlinks that have been (re)created so far.
    pub symlinks_created: usize,
    /// Number of directories that have been created so far.
    pub directories_created: usize,
    /// The current operation, once one has started.
    pub current_operation: Option<DirectoryCopyOperation>,
    /// The index of the current operation, once one has started.
    pub current_operation_index: Option<usize>,
    /// The total amount of operations.
    pub total_operations: usize,
}

/// The progress after the next operation, `operation`, started.
pub open spec fn with_next_operation(
    progress: DirectoryCopyInternalProgress,
    operation: DirectoryCopyOperation,
) -> DirectoryCopyInternalProgress {
    DirectoryCopyInternalProgress {
        current_operation: Some(operation),
        current_operation_index: Some(
            match progress.current_operation_index {
                Some(index) => (index + 1) as usize,
                None => 0,
            },
        ),
        ..progress
    }
}

impl DirectoryCopyInternalProgress {
    /// Makes `operation` the current one: the operation index moves up by one
    /// (to `0` for the first operation).
    pub fn set_next_operation(&mut self, operation: DirectoryCopyOperation)
        requires
            old(self).current_operation_index matches Some(index) ==> index < usize::MAX,
        ensures
            *final(self) == with_next_operation(*old(self), operation),
    {
        self.current_operation_index = match self.current_operation_index {
            Some(index) => Some(index + 1),
            None => Some(0),
        };
        self.current_operation = Some(operation);
    }

    /// The progress as reported to users, borrowing the current operation.
    pub fn to_user_facing_progress(&self) -> (r: DirectoryCopyProgressRef<'_>)
        requires
            self.current_operation is Some,
            self.current_operation_index is Some,
        ensures
            r.bytes_total == self.bytes_total,
            r.bytes_finished == self.bytes_finished,
            r.files_copied == self.files_copied,
            r.symlinks_created == self.symlinks_created,
            r.directories_created == self.directories_created,
            Some(*r.current_operation) == self.current_operation,
            Some(r.current_operation_index) == self.current_operation_index,
            r.total_operations == self.total_operations,
    {
        let current_operation = self.current_operation.as_ref().unwrap();
        let current_operation_index = self.current_operation_index.unwrap();
        DirectoryCopyProgressRef {
            bytes_total: self.bytes_total,
            bytes_finished: self.bytes_finished,
            files_copied: self.files_copied,
            symlinks_created: self.symlinks_created,
            directories_created: self.directories_created,
            current_operation,
            current_operation_index,
            total_operations: self.total_operations,
        }
    }
}

/// Buffer sizes and reporting interval of a directory copy that reports progress.
#[derive(Clone, Copy, PartialEq, Eq, Debug, Structural)]
pub struct CopyProgressSettings {
    /// Internal buffer size used for reading from source files.
    pub read_buffer_size: usize,
    /// Internal buffer size used for writing to destination files.
    pub write_buffer_size: usize,
    /// Minimum amount of bytes written between two consecutive progress reports.
    pub progress_update_byte_interval: u64,
}

/// Where the execution of a directory copy stands.
#[derive(Debug)]
pub enum CopyExecutionPhase {
    /// Waiting for the own metadata of the path the current operation creates or writes.
    AwaitDestinationExistence,
    /// The directory to create exists; waiting for the metadata of what its path leads to.
    AwaitDirectoryType,
    /// Copying a file.
    CopyingFile {
        /// The file copy.
        transfer: FileTransfer,
        /// Bytes finished before this file.
        bytes_before: u64,
        /// Whether the file's total size was refreshed from a progress report.
        total_refreshed: bool,
    },
    /// Waiting for a directory or a symbolic link to be created.
    AwaitCreation,
    /// The copy has finished.
    Finished,
}

/// The outcome of a directory copy execution.
pub type CopyExecutionResult = Result<DirectoryCopyFinished, CopyDirectoryExecutionError>;

/// Executes the operations of a prepared directory copy, precisely in the order they were
/// prepared, counting what was copied and created.
///
/// With progress settings, a report is due before each file copy, directory creation and
/// symbolic link creation, and once at the end; without them, no report is due.
#[derive(Debug)]
pub struct DirectoryCopyExecution {
    /// The operations to execute.
    pub operations: Vec<QueuedOperation>,
    /// The index of the current operation.
    pub next_index: usize,
    /// The rule the destination directory's contents must respect.
    pub destination_directory_rule: DestinationDirectoryRule,
    /// Progress settings, when progress is reported.
    pub progress_settings: Option<CopyProgressSettings>,
    /// The progress so far.
    pub progress: DirectoryCopyInternalProgress,
    /// Where the execution stands.
    pub phase: CopyExecutionPhase,
}

/// A step of a directory copy execution: whether a progress report is due now, and what next.
pub type CopyExecutionStep = (bool, MachineStep<CopyExecutionResult>);

/// The path that `op` creates or writes.
pub open spec fn operation_target(op: QueuedOperation) -> String {
    match op {
        QueuedOperation::CopyFile { destination_file_path, .. } => destination_file_path,
        QueuedOperation::CreateDirectory { destination_directory_path, .. } => destination_directory_path,
        QueuedOperation::CreateSymlink { symlink_path, .. } => symlink_path,
    }
}

/// The finished-copy summary of `progress`.
pub open spec fn finished_summary(progress: DirectoryCopyInternalProgress) -> DirectoryCopyFinished {
    DirectoryCopyFinished {
        total_bytes_copied: progress.bytes_finished,
        files_copied: progress.files_copied,
        symlinks_created: progress.symlinks_created,
        directories_created: progress.directories_created,
    }
}

impl DirectoryCopyExecution {
    /// The execution after a progress report `file_progress` of the current file copy: the
    /// first report refreshes the file's total size, every report sets how much of it is
    /// finished, and the finished bytes become those before this file plus those of this file.
    /// Outside a file copy, nothing changes.
    pub open spec fn with_file_progress(self, file_progress: FileProgress) -> DirectoryCopyExecution {
        match (self.phase, self.progress.current_operation) {
            (
                CopyExecutionPhase::CopyingFile { transfer, bytes_before, total_refreshed },
                Some(DirectoryCopyOperation::CopyingFile { destination_file_path, progress }),
            ) => DirectoryCopyExecution {
                phase: CopyExecutionPhase::CopyingFile { transfer, bytes_before, total_refreshed: true },
                progress: DirectoryCopyInternalProgress {
                    current_operation: Some(DirectoryCopyOperation::CopyingFile {
                        destination_file_path,
                        progress: FileProgress {
                            bytes_finished: file_progress.bytes_finished,
                            bytes_total: if total_refreshed { progress.bytes_total } else { file_progress.bytes_total },
                        },
                    }),
                    bytes_finished: bytes_before.saturating_add(file_progress.bytes_finished),
                    ..self.progress
                },
                ..self
            },
            _ => self,
        }
    }

    /// The current operation.
    pub open spec fn current(self) -> QueuedOperation {
        self.operations@[self.next_index as int]
    }

    /// Whether progress is reported.
    pub open spec fn reports(self) -> bool {
        self.progress_settings is Some
    }

    /// How an existing destination file is treated by the file copies.
    pub open spec fn file_behaviour(self) -> CollidingFileBehaviour {
        if self.reports() {
            match self.destination_directory_rule {
                DestinationDirectoryRule::AllowNonEmpty { colliding_file_behaviour, .. } => colliding_file_behaviour,
                _ => CollidingFileBehaviour::Abort,
            }
        } else if self.destination_directory_rule.overwrites_files() {
            CollidingFileBehaviour::Overwrite
        } else {
            CollidingFileBehaviour::Abort
        }
    }

    /// The transfer mode of the file copies.
    pub open spec fn file_mode(self) -> TransferMode {
        match self.progress_settings {
            Some(s) => TransferMode::CopyWithProgress {
                read_buffer_size: s.read_buffer_size,
                write_buffer_size: s.write_buffer_size,
                progress_update_byte_interval: s.progress_update_byte_interval,
            },
            None => TransferMode::Copy,
        }
    }

    /// Whether the state is consistent.
    pub open spec fn well_formed(self) -> bool {
        let p = self.progress;
        &&& self.next_index <= self.operations.len()
        &&& !(self.phase is Finished) ==> self.next_index < self.operations.len()
        &&& p.files_copied + p.symlinks_created + p.directories_created <= self.next_index
        &&& match self.phase {
            CopyExecutionPhase::AwaitDestinationExistence => p.current_operation_index matches Some(k) ==> k < self.next_index,
            CopyExecutionPhase::AwaitDirectoryType => {
                &&& self.current() is CreateDirectory
                &&& p.current_operation_index matches Some(k) ==> k < self.next_index
            },
            CopyExecutionPhase::CopyingFile { .. } => {
                &&& self.current() is CopyFile
                &&& p.current_operation_index matches Some(k) ==> k <= self.next_index
            },
            CopyExecutionPhase::AwaitCreation => {
                &&& !(self.current() is CopyFile)
                &&& p.current_operation_index matches Some(k) ==> k <= self.next_index
            },
            CopyExecutionPhase::Finished => true,
        }
    }

    /// The execution in `phase`.
    pub open spec fn in_phase(self, phase: CopyExecutionPhase) -> DirectoryCopyExecution {
        DirectoryCopyExecution { phase, ..self }
    }

    /// The execution finished with `result`.
    pub open spec fn finish(self, result: CopyExecutionResult) -> (DirectoryCopyExecution, bool, MachineStep<CopyExecutionResult>) {
        (self.in_phase(CopyExecutionPhase::Finished), false, MachineStep::Finished(result))
    }

    /// The execution moved on to the operation at `index`.
    pub open spec fn start_at(self, index: usize) -> (DirectoryCopyExecution, bool, MachineStep<CopyExecutionResult>) {
        let s = DirectoryCopyExecution { next_index: index, ..self };
        if index >= self.operations.len() {
            (
                s.in_phase(CopyExecutionPhase::Finished),
                self.reports() && self.progress.current_operation is Some,
                MachineStep::Finished(Ok(finished_summary(self.progress))),
            )
        } else if !self.reports() && s.current() is CreateSymlink {
            s.begin()
        } else {
            (
                s.in_phase(CopyExecutionPhase::AwaitDestinationExistence),
                false,
                MachineStep::Perform(FsRequest::SymlinkMetadata { path: operation_target(s.current()) }),
            )
        }
    }

    /// The execution with the progress `progress`, reporting when progress is reported.
    pub open spec fn announce(self, operation: DirectoryCopyOperation) -> DirectoryCopyInternalProgress {
        if self.reports() {
            with_next_operation(self.progress, operation)
        } else {
            self.progress
        }
    }

    /// The execution beginning its current operation.
    pub open spec fn begin(self) -> (DirectoryCopyExecution, bool, MachineStep<CopyExecutionResult>) {
        match self.current() {
            QueuedOperation::CopyFile { source_file_path, destination_file_path, source_size_bytes } => {
                let transfer = FileTransfer {
                    source_path: source_file_path,
                    destination_path: destination_file_path,
                    colliding_file_behaviour: self.file_behaviour(),
                    mode: self.file_mode(),
                    phase: FileTransferPhase::AwaitSourceExistence,
                };
                let progress = self.announce(DirectoryCopyOperation::CopyingFile {
                    destination_file_path,
                    progress: FileProgress { bytes_finished: 0, bytes_total: source_size_bytes },
                });
                (
                    DirectoryCopyExecution {
                        progress,
                        phase: CopyExecutionPhase::CopyingFile {
                            transfer,
                            bytes_before: self.progress.bytes_finished,
                            total_refreshed: false,
                        },
                        ..self
                    },
                    self.reports(),
                    MachineStep::Perform(transfer.pending_request()),
                )
            },
            QueuedOperation::CreateDirectory { destination_directory_path, create_parent_directories, .. } => {
                let progress = self.announce(DirectoryCopyOperation::CreatingDirectory { destination_directory_path });
                (
                    DirectoryCopyExecution { progress, phase: CopyExecutionPhase::AwaitCreation, ..self },
                    self.reports(),
                    MachineStep::Perform(
                        if create_parent_directories {
                            FsRequest::CreateDirectoryAll { path: destination_directory_path }
                        } else {
                            FsRequest::CreateDirectory { path: destination_directory_path }
                        },
                    ),
                )
            },
            QueuedOperation::CreateSymlink { symlink_path, symlink_destination_path, .. } => {
                let progress = self.announce(DirectoryCopyOperation::CreatingSymbolicLink {
                    destination_symbolic_link_file_path: symlink_path,
                });
                (
                    DirectoryCopyExecution { progress, phase: CopyExecutionPhase::AwaitCreation, ..self },
                    self.reports(),
                    MachineStep::Perform(FsRequest::CreateSymlink { link_path: symlink_path, target_path: symlink_destination_path }),
                )
            },
        }
    }

    /// The error for an unexpected entry at the current operation's path.
    pub open spec fn unexpected(self) -> (DirectoryCopyExecution, bool, MachineStep<CopyExecutionResult>) {
        self.finish(Err(CopyDirectoryExecutionError::DestinationEntryUnexpected { path: operation_target(self.current()) }))
    }

    /// The execution after learning that the current operation's path exists, with type `t`.
    pub open spec fn on_existing(self, t: EntryType) -> (DirectoryCopyExecution, bool, MachineStep<CopyExecutionResult>) {
        match self.current() {
            QueuedOperation::CopyFile { .. } => if t != EntryType::File || !self.destination_directory_rule.overwrites_files() {
                self.unexpected()
            } else {
                self.begin()
            },
            QueuedOperation::CreateDirectory { destination_directory_path, .. } => if self.reports() {
                if t != EntryType::Directory || self.destination_directory_rule is DisallowExisting {
                    self.unexpected()
                } else {
                    self.start_at((self.next_index + 1) as usize)
                }
            } else {
                (
                    self.in_phase(CopyExecutionPhase::AwaitDirectoryType),
                    false,
                    MachineStep::Perform(FsRequest::Metadata { path: destination_directory_path }),
                )
            },
            QueuedOperation::CreateSymlink { .. } => if t != EntryType::Symlink || !self.destination_directory_rule.overwrites_files() {
                self.unexpected()
            } else {
                self.begin()
            },
        }
    }

    /// The execution after the current operation completed, with the progress `progress`.
    pub open spec fn completed(self, progress: DirectoryCopyInternalProgress) -> (DirectoryCopyExecution, bool, MachineStep<CopyExecutionResult>) {
        DirectoryCopyExecution { progress, ..self }.start_at((self.next_index + 1) as usize)
    }

    /// The progress after the current file copy finished with `outcome`.
    pub open spec fn file_copied(self, bytes_before: u64, outcome: TransferOutcome) -> DirectoryCopyInternalProgress {
        let p = self.progress;
        let bytes_finished = if self.reports() {
            match outcome {
                TransferOutcome::Transferred { bytes, .. } => bytes_before.saturating_add(bytes),
                TransferOutcome::Skipped => p.bytes_finished,
            }
        } else {
            match self.current() {
                QueuedOperation::CopyFile { source_size_bytes, .. } => p.bytes_finished.saturating_add(source_size_bytes),
                _ => p.bytes_finished,
            }
        };
        DirectoryCopyInternalProgress { files_copied: (p.files_copied + 1) as usize, bytes_finished, ..p }
    }

    /// The next state, report and step of the execution, given the response to its pending request.
    pub open spec fn next(self, response: FsResponse) -> (DirectoryCopyExecution, bool, MachineStep<CopyExecutionResult>) {
        let target = operation_target(self.current());
        match (self.phase, response) {
            (CopyExecutionPhase::AwaitDestinationExistence, FsResponse::Metadata(m)) => match existence_of(m) {
                Err(e) => self.finish(Err(CopyDirectoryExecutionError::UnableToAccessDestination { path: target, error: e })),
                Ok(false) => self.begin(),
                Ok(true) => self.on_existing(m->Ok_0.entry_type),
            },
            (CopyExecutionPhase::AwaitDirectoryType, FsResponse::Metadata(m)) => {
                if !reports_directory(m) || !self.destination_directory_rule.keeps_existing_subdirectories() {
                    self.unexpected()
                } else {
                    self.start_at((self.next_index + 1) as usize)
                }
            },
            (CopyExecutionPhase::CopyingFile { transfer, bytes_before, total_refreshed }, response) => {
                let (t2, step) = transfer.next(response);
                match step {
                    MachineStep::Perform(r) => (
                        self.in_phase(CopyExecutionPhase::CopyingFile { transfer: t2, bytes_before, total_refreshed }),
                        false,
                        MachineStep::Perform(r),
                    ),
                    MachineStep::Finished(Err(e)) => self.finish(Err(CopyDirectoryExecutionError::FileCopyError { file_path: target, error: e })),
                    MachineStep::Finished(Ok(outcome)) => self.completed(self.file_copied(bytes_before, outcome)),
                }
            },
            (CopyExecutionPhase::AwaitCreation, FsResponse::Done(r)) => {
                let p = self.progress;
                match self.current() {
                    QueuedOperation::CreateDirectory { source_size_bytes, .. } => match r {
                        Err(f) => self.finish(Err(CopyDirectoryExecutionError::UnableToCreateDirectory { directory_path: target, error: f.error })),
                        Ok(()) => self.completed(DirectoryCopyInternalProgress {
                            directories_created: (p.directories_created + 1) as usize,
                            bytes_finished: p.bytes_finished.saturating_add(source_size_bytes),
                            ..p
                        }),
                    },
                    QueuedOperation::CreateSymlink { source_symlink_size_bytes, .. } => match r {
                        Err(f) => self.finish(Err(CopyDirectoryExecutionError::SymlinkCreationError { symlink_path: target, error: f.error })),
                        Ok(()) => self.completed(DirectoryCopyInternalProgress {
                            symlinks_created: (p.symlinks_created + 1) as usize,
                            bytes_finished: p.bytes_finished.saturating_add(source_symlink_size_bytes),
                            ..p
                        }),
                    },
                    _ => (self, false, MachineStep::Finished(Ok(finished_summary(p)))),
                }
            },
            _ => (self, false, MachineStep::Finished(Ok(finished_summary(self.progress)))),
        }
    }

    /// Whether `response` can resume this execution.
    pub open spec fn accepts(self, response: FsResponse) -> bool {
        match self.phase {
            CopyExecutionPhase::AwaitDestinationExistence => response is Metadata,
            CopyExecutionPhase::AwaitDirectoryType => response is Metadata,
            CopyExecutionPhase::CopyingFile { transfer, .. } => transfer.accepts(response),
            CopyExecutionPhase::AwaitCreation => response is Done,
            CopyExecutionPhase::Finished => false,
        }
    }
}

impl DirectoryCopyExecution {
    /// How an existing destination file is treated by the file copies.
    fn colliding_file_behaviour(&self) -> (r: CollidingFileBehaviour)
        ensures
            r == self.file_behaviour(),
    {
        if self.progress_settings.is_some() {
            match self.destination_directory_rule {
                DestinationDirectoryRule::AllowNonEmpty { colliding_file_behaviour, .. } => colliding_file_behaviour,
                _ => CollidingFileBehaviour::Abort,
            }
        } else if self.destination_directory_rule.allows_overwriting_existing_destination_files() {
            CollidingFileBehaviour::Overwrite
        } else {
            CollidingFileBehaviour::Abort
        }
    }

    /// The transfer mode of the file copies.
    fn transfer_mode(&self) -> (r: TransferMode)
        ensures
            r == self.file_mode(),
    {
        match self.progress_settings {
            Some(s) => TransferMode::CopyWithProgress {
                read_buffer_size: s.read_buffer_size,
                write_buffer_size: s.write_buffer_size,
                progress_update_byte_interval: s.progress_update_byte_interval,
            },
            None => TransferMode::Copy,
        }
    }

    /// Makes `operation` the current one, when progress is reported.
    fn announce_operation(&mut self, operation: DirectoryCopyOperation)
        requires
            old(self).progress.current_operation_index matches Some(k) ==> k < usize::MAX,
        ensures
            *final(self) == (DirectoryCopyExecution { progress: old(self).announce(operation), ..*old(self) }),
    {
        if self.progress_settings.is_some() {
            self.progress.set_next_operation(operation);
        }
    }

    /// Begins the current operation.
    fn begin_current(&mut self) -> (r: CopyExecutionStep)
        requires
            old(self).next_index < old(self).operations.len(),
            old(self).progress.current_operation_index matches Some(k) ==> k <= old(self).next_index,
        ensures
            (*final(self), r.0, r.1) == old(self).begin(),
    {
        let reports = self.progress_settings.is_some();
        match &self.operations[self.next_index] {
            QueuedOperation::CopyFile { source_file_path, destination_file_path, source_size_bytes } => {
                let source = source_file_path.clone();
                let destination = destination_file_path.clone();
                let size = *source_size_bytes;
                let behaviour = self.colliding_file_behaviour();
                let mode = self.transfer_mode();
                let bytes_before = self.progress.bytes_finished;
                self.announce_operation(DirectoryCopyOperation::CopyingFile {
                    destination_file_path: destination.clone(),
                    progress: FileProgress { bytes_finished: 0, bytes_total: size },
                });
                let (transfer, request) = FileTransfer::start(source, destination, behaviour, mode);
                self.phase = CopyExecutionPhase::CopyingFile { transfer, bytes_before, total_refreshed: false };
                (reports, MachineStep::Perform(request))
            },
            QueuedOperation::CreateDirectory { destination_directory_path, create_parent_directories, .. } => {
                let path = destination_directory_path.clone();
                let request = if *create_parent_directories {
                    FsRequest::CreateDirectoryAll { path: path.clone() }
                } else {
                    FsRequest::CreateDirectory { path: path.clone() }
                };
                self.announce_operation(DirectoryCopyOperation::CreatingDirectory { destination_directory_path: path });
                self.phase = CopyExecutionPhase::AwaitCreation;
                (reports, MachineStep::Perform(request))
            },
            QueuedOperation::CreateSymlink { symlink_path, symlink_destination_path, .. } => {
                let request = FsRequest::CreateSymlink {
                    link_path: symlink_path.clone(),
                    target_path: symlink_destination_path.clone(),
                };
                self.announce_operation(DirectoryCopyOperation::CreatingSymbolicLink {
                    destination_symbolic_link_file_path: symlink_path.clone(),
                });
                self.phase = CopyExecutionPhase::AwaitCreation;
                (reports, MachineStep::Perform(request))
            },
        }
    }

    /// Moves on to the operation at `index`.
    fn start_at_index(&mut self, index: usize) -> (r: CopyExecutionStep)
        requires
            old(self).progress.current_operation_index matches Some(k) ==> k < index,
        ensures
            (*final(self), r.0, r.1) == old(self).start_at(index),
    {
        self.next_index = index;
        if index >= self.operations.len() {
            self.phase = CopyExecutionPhase::Finished;
            let report = self.progress_settings.is_some() && self.progress.current_operation.is_some();
            let summary = DirectoryCopyFinished {
                total_bytes_copied: self.progress.bytes_finished,
                files_copied: self.progress.files_copied,
                symlinks_created: self.progress.symlinks_created,
                directories_created: self.progress.directories_created,
            };
            (report, MachineStep::Finished(Ok(summary)))
        } else {
            let is_symlink = match &self.operations[index] {
                QueuedOperation::CreateSymlink { .. } => true,
                _ => false,
            };
            if self.progress_settings.is_none() && is_symlink {
                self.begin_current()
            } else {
                let path = match &self.operations[index] {
                    QueuedOperation::CopyFile { destination_file_path, .. } => destination_file_path.clone(),
                    QueuedOperation::CreateDirectory { destination_directory_path, .. } => destination_directory_path.clone(),
                    QueuedOperation::CreateSymlink { symlink_path, .. } => symlink_path.clone(),
                };
                self.phase = CopyExecutionPhase::AwaitDestinationExistence;
                (false, MachineStep::Perform(FsRequest::SymlinkMetadata { path }))
            }
        }
    }

    /// Starts executing `prepared` under `destination_directory_rule`, reporting progress
    /// when `progress_settings` are given.
    pub fn start(
        prepared: DirectoryCopyPrepared,
        destination_directory_rule: DestinationDirectoryRule,
        progress_settings: Option<CopyProgressSettings>,
    ) -> (r: (DirectoryCopyExecution, CopyExecutionStep))
        ensures
            r.0.well_formed(),
            r.0.operations@ == execution_operations(prepared.operation_queue@, prepared.destination_directory_to_create),
            (r.0, r.1.0, r.1.1) == (DirectoryCopyExecution {
                operations: r.0.operations,
                next_index: 0,
                destination_directory_rule,
                progress_settings,
                progress: DirectoryCopyInternalProgress {
                    bytes_total: prepared.total_bytes,
                    bytes_finished: 0,
                    files_copied: 0,
                    symlinks_created: 0,
                    directories_created: 0,
                    current_operation: None,
                    current_operation_index: None,
                    total_operations: r.0.operations.len(),
                },
                phase: CopyExecutionPhase::Finished,
            }).start_at(0),
    {
        let mut operations: Vec<QueuedOperation> = Vec::new();
        match prepared.destination_directory_to_create {
            Some(root) => operations.push(QueuedOperation::CreateDirectory {
                destination_directory_path: root,
                create_parent_directories: true,
                source_size_bytes: 0,
            }),
            None => {},
        }
        let mut queue = prepared.operation_queue;
        operations.append(&mut queue);
        proof {
            assert(operations@ =~= execution_operations(prepared.operation_queue@, prepared.destination_directory_to_create));
        }
        let total_operations = operations.len();
        let mut execution = DirectoryCopyExecution {
            operations,
            next_index: 0,
            destination_directory_rule,
            progress_settings,
            progress: DirectoryCopyInternalProgress {
                bytes_total: prepared.total_bytes,
                bytes_finished: 0,
                files_copied: 0,
                symlinks_created: 0,
                directories_created: 0,
                current_operation: None,
                current_operation_index: None,
                total_operations,
            },
            phase: CopyExecutionPhase::Finished,
        };
        let step = execution.start_at_index(0);
        (execution, step)
    }

    /// Whether `response` can resume this execution.
    pub fn can_accept(&self, response: &FsResponse) -> (r: bool)
        ensures
            r == self.accepts(*response),
    {
        match (&self.phase, response) {
            (CopyExecutionPhase::AwaitDestinationExistence, FsResponse::Metadata(_)) => true,
            (CopyExecutionPhase::AwaitDirectoryType, FsResponse::Metadata(_)) => true,
            (CopyExecutionPhase::CopyingFile { transfer, .. }, _) => transfer.can_accept(response),
            (CopyExecutionPhase::AwaitCreation, FsResponse::Done(_)) => true,
            _ => false,
        }
    }

    /// Records a progress report of the current file copy: the first report refreshes the
    /// file's total size, every report sets how much of it is finished, and the directory
    /// copy's finished bytes become those before this file plus those of this file.
    /// Outside a file copy, nothing changes.
    pub fn record_file_progress(&mut self, file_progress: FileProgress)
        ensures
            *final(self) == old(self).with_file_progress(file_progress),
    {
        let mut phase = CopyExecutionPhase::Finished;
        std::mem::swap(&mut phase, &mut self.phase);
        match phase {
            CopyExecutionPhase::CopyingFile { transfer, bytes_before, total_refreshed } => {
                let mut operation = None;
                std::mem::swap(&mut operation, &mut self.progress.current_operation);
                match operation {
                    Some(DirectoryCopyOperation::CopyingFile { destination_file_path, progress }) => {
                        let bytes_total = if total_refreshed { progress.bytes_total } else { file_progress.bytes_total };
                        self.progress.current_operation = Some(DirectoryCopyOperation::CopyingFile {
                            destination_file_path,
                            progress: FileProgress { bytes_finished: file_progress.bytes_finished, bytes_total },
                        });
                        self.progress.bytes_finished = bytes_before.saturating_add(file_progress.bytes_finished);
                        self.phase = CopyExecutionPhase::CopyingFile { transfer, bytes_before, total_refreshed: true };
                    },
                    other => {
                        self.progress.current_operation = other;
                        self.phase = CopyExecutionPhase::CopyingFile { transfer, bytes_before, total_refreshed };
                    },
                }
            },
            other => {
                self.phase = other;
            },
        }
    }

    /// Resumes the execution with the response to its pending request.
    pub fn resume(&mut self, response: FsResponse) -> (r: CopyExecutionStep)
        requires
            old(self).well_formed(),
            old(self).accepts(response),
        ensures
            final(self).well_formed(),
            (*final(self), r.0, r.1) == old(self).next(response),
    {
        let mut phase = CopyExecutionPhase::Finished;
        std::mem::swap(&mut phase, &mut self.phase);
        let target = match &self.operations[self.next_index] {
            QueuedOperation::CopyFile { destination_file_path, .. } => destination_file_path.clone(),
            QueuedOperation::CreateDirectory { destination_directory_path, .. } => destination_directory_path.clone(),
            QueuedOperation::CreateSymlink { symlink_path, .. } => symlink_path.clone(),
        };
        let next_index = self.next_index + 1;
        match (phase, response) {
            (CopyExecutionPhase::AwaitDestinationExistence, FsResponse::Metadata(m)) => match m {
                Err(failure) => if failure.not_found {
                    self.begin_current()
                } else {
                    (false, MachineStep::Finished(Err(CopyDirectoryExecutionError::UnableToAccessDestination {
                        path: target,
                        error: failure.error,
                    })))
                },
                Ok(meta) => {
                    let overwrites = self.destination_directory_rule.allows_overwriting_existing_destination_files();
                    match &self.operations[self.next_index] {
                        QueuedOperation::CopyFile { .. } => if meta.entry_type != EntryType::File || !overwrites {
                            (false, MachineStep::Finished(Err(CopyDirectoryExecutionError::DestinationEntryUnexpected { path: target })))
                        } else {
                            self.begin_current()
                        },
                        QueuedOperation::CreateDirectory { .. } => if self.progress_settings.is_some() {
                            let disallows = match self.destination_directory_rule {
                                DestinationDirectoryRule::DisallowExisting => true,
                                _ => false,
                            };
                            if meta.entry_type != EntryType::Directory || disallows {
                                (false, MachineStep::Finished(Err(CopyDirectoryExecutionError::DestinationEntryUnexpected { path: target })))
                            } else {
                                self.start_at_index(next_index)
                            }
                        } else {
                            self.phase = CopyExecutionPhase::AwaitDirectoryType;
                            (false, MachineStep::Perform(FsRequest::Metadata { path: target }))
                        },
                        QueuedOperation::CreateSymlink { .. } => if meta.entry_type != EntryType::Symlink || !overwrites {
                            (false, MachineStep::Finished(Err(CopyDirectoryExecutionError::DestinationEntryUnexpected { path: target })))
                        } else {
                            self.begin_current()
                        },
                    }
                },
            },
            (CopyExecutionPhase::AwaitDirectoryType, FsResponse::Metadata(m)) => {
                let is_directory = match m {
                    Ok(meta) => meta.entry_type == EntryType::Directory,
                    Err(_) => false,
                };
                if !is_directory || !self.destination_directory_rule.allows_existing_destination_subdirectories() {
                    (false, MachineStep::Finished(Err(CopyDirectoryExecutionError::DestinationEntryUnexpected { path: target })))
                } else {
                    self.start_at_index(next_index)
                }
            },
            (CopyExecutionPhase::CopyingFile { mut transfer, bytes_before, total_refreshed }, response) => {
                match transfer.resume(response) {
                    MachineStep::Perform(request) => {
                        self.phase = CopyExecutionPhase::CopyingFile { transfer, bytes_before, total_refreshed };
                        (false, MachineStep::Perform(request))
                    },
                    MachineStep::Finished(Err(e)) => (false, MachineStep::Finished(Err(
                        CopyDirectoryExecutionError::FileCopyError { file_path: target, error: e },
                    ))),
                    MachineStep::Finished(Ok(outcome)) => {
                        let bytes_finished = if self.progress_settings.is_some() {
                            match outcome {
                                TransferOutcome::Transferred { bytes, .. } => bytes_before.saturating_add(bytes),
                                TransferOutcome::Skipped => self.progress.bytes_finished,
                            }
                        } else {
                            match &self.operations[self.next_index] {
                                QueuedOperation::CopyFile { source_size_bytes, .. } => {
                                    self.progress.bytes_finished.saturating_add(*source_size_bytes)
                                },
                                _ => self.progress.bytes_finished,
                            }
                        };
                        self.progress.bytes_finished = bytes_finished;
                        self.progress.files_copied = self.progress.files_copied + 1;
                        self.start_at_index(next_index)
                    },
                }
            },
            (CopyExecutionPhase::AwaitCreation, FsResponse::Done(r)) => match &self.operations[self.next_index] {
                QueuedOperation::CreateDirectory { source_size_bytes, .. } => match r {
                    Err(f) => (false, MachineStep::Finished(Err(CopyDirectoryExecutionError::UnableToCreateDirectory {
                        directory_path: target,
                        error: f.error,
                    }))),
                    Ok(()) => {
                        self.progress.bytes_finished = self.progress.bytes_finished.saturating_add(*source_size_bytes);
                        self.progress.directories_created = self.progress.directories_created + 1;
                        self.start_at_index(next_index)
                    },
                },
                QueuedOperation::CreateSymlink { source_symlink_size_bytes, .. } => match r {
                    Err(f) => (false, MachineStep::Finished(Err(CopyDirectoryExecutionError::SymlinkCreationError {
                        symlink_path: target,
                        error: f.error,
                    }))),
                    Ok(()) => {
                        self.progress.bytes_finished = self.progress.bytes_finished.saturating_add(*source_symlink_size_bytes);
                        self.progress.symlinks_created = self.progress.symlinks_created + 1;
                        self.start_at_index(next_index)
                    },
                },
                QueuedOperation::CopyFile { .. } => (false, MachineStep::Finished(Ok(DirectoryCopyFinished {
                    total_bytes_copied: self.progress.bytes_finished,
                    files_copied: self.progress.files_copied,
                    symlinks_created: self.progress.symlinks_created,
                    directories_created: self.progress.directories_created,
                }))),
            },
            (phase, _) => {
                self.phase = phase;
                (false, MachineStep::Finished(Ok(DirectoryCopyFinished {
                    total_bytes_copied: self.progress.bytes_finished,
                    files_copied: self.progress.files_copied,
                    symlinks_created: self.progress.symlinks_created,
                    directories_created: self.progress.directories_created,
                })))
            },
        }
    }
}

/// The step of a directory copy that corresponds to a step of its execution.
pub open spec fn copy_step_of(step: MachineStep<CopyExecutionResult>) -> MachineStep<Result<DirectoryCopyFinished, CopyDirectoryError>> {
    match step {
        MachineStep::Perform(r) => MachineStep::Perform(r),
        MachineStep::Finished(Ok(f)) => MachineStep::Finished(Ok(f)),
        MachineStep::Finished(Err(e)) => MachineStep::Finished(Err(CopyDirectoryError::ExecutionError(e))),
    }
}

/// Where a directory copy stands.
pub enum DirectoryCopyPhase {
    /// Validating, planning and checking the copy.
    Preparing(DirectoryCopyPreparation),
    /// Executing the prepared copy (until its execution finishes).
    Executing(DirectoryCopyExecution),
    /// The preparation has failed.
    Finished,
}

/// A directory copy: its preparation, then the execution of the prepared operations.
///
/// A preparation error leaves the destination untouched; an execution error may leave it
/// partially copied.
pub struct DirectoryCopy {
    /// The rule the destination directory must respect.
    pub destination_directory_rule: DestinationDirectoryRule,
    /// Progress settings, when progress is reported.
    pub progress_settings: Option<CopyProgressSettings>,
    /// Where the copy stands.
    pub phase: DirectoryCopyPhase,
}

/// The creation of the destination directory `root`, with its missing parents, before the
/// queued operations of a copy.
pub open spec fn root_creation(root: String) -> QueuedOperation {
    QueuedOperation::CreateDirectory { destination_directory_path: root, create_parent_directories: true, source_size_bytes: 0 }
}

/// The operations a copy executes: the creation of the destination directory, when it
/// does not exist yet, then the queued operations.
pub open spec fn execution_operations(queue: Seq<QueuedOperation>, root: Option<String>) -> Seq<QueuedOperation> {
    match root {
        Some(r) => seq![root_creation(r)] + queue,
        None => queue,
    }
}

/// The operations a copy executes, with their paths as character sequences.
pub open spec fn executed_operations(prepared: PreparedView) -> Seq<OperationView> {
    match prepared.root {
        Some(r) => seq![OperationView::CreateDirectory { destination: r, create_parents: true, size: 0 }] + prepared.queue,
        None => prepared.queue,
    }
}

/// The operations a copy executes are those of its prepared copy, seen as views.
pub proof fn lemma_executed_operations_view(prepared: DirectoryCopyPrepared)
    ensures
        operations_view(execution_operations(prepared.operation_queue@, prepared.destination_directory_to_create))
            == executed_operations(prepared_view(prepared)),
{
    let q = prepared.operation_queue@;
    match prepared.destination_directory_to_create {
        Some(r) => {
            let ops = seq![root_creation(r)] + q;
            assert(operations_view(ops) =~= seq![OperationView::CreateDirectory { destination: r@, create_parents: true, size: 0 }]
                + operations_view(q));
        },
        None => {},
    }
}

/// The execution of `prepared` under `rule`, before it started.
pub open spec fn initial_execution(
    operations: Vec<QueuedOperation>,
    total_bytes: u64,
    rule: DestinationDirectoryRule,
    progress_settings: Option<CopyProgressSettings>,
) -> DirectoryCopyExecution {
    DirectoryCopyExecution {
        operations,
        next_index: 0,
        destination_directory_rule: rule,
        progress_settings,
        progress: DirectoryCopyInternalProgress {
            bytes_total: total_bytes,
            bytes_finished: 0,
            files_copied: 0,
            symlinks_created: 0,
            directories_created: 0,
            current_operation: None,
            current_operation_index: None,
            total_operations: operations.len(),
        },
        phase: CopyExecutionPhase::Finished,
    }
}

impl DirectoryCopy {
    /// Whether the copy's parts agree with each other.
    pub open spec fn well_formed(self) -> bool {
        match self.phase {
            DirectoryCopyPhase::Preparing(p) => {
                &&& p.well_formed()
                &&& p.destination_directory_rule == self.destination_directory_rule
            },
            DirectoryCopyPhase::Executing(e) => {
                &&& e.well_formed()
                &&& e.destination_directory_rule == self.destination_directory_rule
                &&& e.progress_settings == self.progress_settings
            },
            DirectoryCopyPhase::Finished => true,
        }
    }

    /// Whether `response` can resume this copy.
    pub open spec fn accepts(self, response: FsResponse) -> bool {
        match self.phase {
            DirectoryCopyPhase::Preparing(p) => p.accepts(response),
            DirectoryCopyPhase::Executing(e) => e.accepts(response),
            DirectoryCopyPhase::Finished => false,
        }
    }

    /// Whether `next`, `report` and `step` are what this copy turns into, reports and does
    /// next when resumed with `response`.
    pub open spec fn resumes_to(
        self,
        response: FsResponse,
        next: DirectoryCopy,
        report: bool,
        step: MachineStep<Result<DirectoryCopyFinished, CopyDirectoryError>>,
    ) -> bool {
        &&& next.destination_directory_rule == self.destination_directory_rule
        &&& next.progress_settings == self.progress_settings
        &&& match self.phase {
            DirectoryCopyPhase::Preparing(p) => {
                let (stage, prepared_step) = p.next(response);
                match prepared_step {
                    CopyPreparationStepView::Perform(r) => {
                        &&& next.phase matches DirectoryCopyPhase::Preparing(p2)
                            && p2.stage_view() == stage
                            && p2.destination_directory_path == p.destination_directory_path
                            && p2.destination_directory_rule == p.destination_directory_rule
                            && p2.copy_depth_limit == p.copy_depth_limit
                            && p2.symlink_behaviour == p.symlink_behaviour
                            && p2.broken_symlink_behaviour == p.broken_symlink_behaviour
                        &&& !report
                        &&& step matches MachineStep::Perform(request) && request@ == r
                    },
                    CopyPreparationStepView::Finished(Err(e)) => {
                        &&& next.phase is Finished
                        &&& !report
                        &&& step matches MachineStep::Finished(Err(CopyDirectoryError::PreparationError(err)))
                            && preparation_error_view(err) == e
                    },
                    CopyPreparationStepView::Finished(Ok(prepared)) => {
                        &&& next.phase matches DirectoryCopyPhase::Executing(e)
                        &&& operations_view(next.phase->Executing_0.operations@) == executed_operations(prepared)
                        &&& {
                            let e = next.phase->Executing_0;
                            let (e2, r, s) = initial_execution(
                                e.operations,
                                prepared.total_bytes,
                                self.destination_directory_rule,
                                self.progress_settings,
                            ).start_at(0);
                            &&& e2 == e
                            &&& r == report
                            &&& copy_step_of(s) == step
                        }
                    },
                }
            },
            DirectoryCopyPhase::Executing(e) => {
                let (e2, r, s) = e.next(response);
                &&& report == r
                &&& step == copy_step_of(s)
                &&& next.phase == DirectoryCopyPhase::Executing(e2)
            },
            DirectoryCopyPhase::Finished => true,
        }
    }

    /// Starts a copy of `source_directory_path` to `destination_directory_path`.
    pub fn start(
        source_directory_path: String,
        destination_directory_path: String,
        options: DirectoryCopyOptions,
        progress_settings: Option<CopyProgressSettings>,
    ) -> (r: (DirectoryCopy, FsRequest))
        ensures
            r.0.well_formed(),
            r.0.destination_directory_rule == options.destination_directory_rule,
            r.0.progress_settings == progress_settings,
            r.0.phase matches DirectoryCopyPhase::Preparing(p) && p == (DirectoryCopyPreparation {
                destination_directory_path,
                destination_directory_rule: options.destination_directory_rule,
                copy_depth_limit: options.copy_depth_limit,
                symlink_behaviour: options.symlink_behaviour,
                broken_symlink_behaviour: options.broken_symlink_behaviour,
                stage: CopyPreparationStage::ValidatingSource(SourceDirectoryValidation {
                    source_directory_path,
                    phase: SourceValidationPhase::AwaitExistence,
                }),
            }),
            r.1@ == (crate::requests::RequestView::SymlinkMetadata { path: source_directory_path@ }),
    {
        let (preparation, request) = DirectoryCopyPreparation::start(
            source_directory_path,
            destination_directory_path,
            options.destination_directory_rule,
            options.copy_depth_limit,
            options.symlink_behaviour,
            options.broken_symlink_behaviour,
        );
        (
            DirectoryCopy {
                destination_directory_rule: options.destination_directory_rule,
                progress_settings,
                phase: DirectoryCopyPhase::Preparing(preparation),
            },
            request,
        )
    }

    /// Whether `response` can resume this copy.
    pub fn can_accept(&self, response: &FsResponse) -> (r: bool)
        ensures
            r == self.accepts(*response),
    {
        match &self.phase {
            DirectoryCopyPhase::Preparing(p) => p.can_accept(response),
            DirectoryCopyPhase::Executing(e) => e.can_accept(response),
            DirectoryCopyPhase::Finished => false,
        }
    }

    /// Records a progress report of the file being copied (see
    /// [`DirectoryCopyExecution::record_file_progress`]); outside execution, nothing changes.
    pub fn record_file_progress(&mut self, file_progress: FileProgress)
        requires
            old(self).well_formed(),
        ensures
            final(self).well_formed(),
            final(self).destination_directory_rule == old(self).destination_directory_rule,
            final(self).progress_settings == old(self).progress_settings,
            final(self).phase == match old(self).phase {
                DirectoryCopyPhase::Executing(e) => DirectoryCopyPhase::Executing(e.with_file_progress(file_progress)),
                other => other,
            },
    {
        match &mut self.phase {
            DirectoryCopyPhase::Executing(e) => e.record_file_progress(file_progress),
            _ => {},
        }
    }

    /// The progress of the execution, once one operation has started.
    pub fn progress(&self) -> (r: Option<&DirectoryCopyInternalProgress>)
        ensures
            match self.phase {
                DirectoryCopyPhase::Executing(e) => r == Some(&e.progress),
                _ => r is None,
            },
    {
        match &self.phase {
            DirectoryCopyPhase::Executing(e) => Some(&e.progress),
            _ => None,
        }
    }

    /// Resumes the copy with the response to its pending request; the flag says whether a
    /// progress report is due now.
    pub fn resume(&mut self, response: FsResponse) -> (r: (bool, MachineStep<Result<DirectoryCopyFinished, CopyDirectoryError>>))
        requires
            old(self).well_formed(),
            old(self).accepts(response),
        ensures
            final(self).well_formed(),
            old(self).resumes_to(response, *final(self), r.0, r.1),
    {
        let mut phase = DirectoryCopyPhase::Finished;
        std::mem::swap(&mut phase, &mut self.phase);
        match phase {
            DirectoryCopyPhase::Preparing(mut preparation) => match preparation.resume(response) {
                MachineStep::Perform(request) => {
                    self.phase = DirectoryCopyPhase::Preparing(preparation);
                    (false, MachineStep::Perform(request))
                },
                MachineStep::Finished(Err(e)) => (false, MachineStep::Finished(Err(CopyDirectoryError::PreparationError(e)))),
                MachineStep::Finished(Ok(prepared)) => {
                    proof {
                        lemma_executed_operations_view(prepared);
                    }
                    let (execution, (report, step)) = DirectoryCopyExecution::start(
                        prepared,
                        self.destination_directory_rule,
                        self.progress_settings,
                    );
                    self.phase = DirectoryCopyPhase::Executing(execution);
                    (report, Self::map_step(step))
                },
            },
            DirectoryCopyPhase::Executing(mut execution) => {
                let (report, step) = execution.resume(response);
                self.phase = DirectoryCopyPhase::Executing(execution);
                (report, Self::map_step(step))
            },
            DirectoryCopyPhase::Finished => (false, MachineStep::Finished(Ok(DirectoryCopyFinished {
                total_bytes_copied: 0,
                files_copied: 0,
                symlinks_created: 0,
                directories_created: 0,
            }))),
        }
    }

    /// The step of the copy that corresponds to a step of its execution.
    fn map_step(step: MachineStep<CopyExecutionResult>) -> (r: MachineStep<Result<DirectoryCopyFinished, CopyDirectoryError>>)
        ensures
            r == copy_step_of(step),
    {
        match step {
            MachineStep::Perform(request) => MachineStep::Perform(request),
            MachineStep::Finished(Ok(f)) => MachineStep::Finished(Ok(f)),
            MachineStep::Finished(Err(e)) => MachineStep::Finished(Err(CopyDirectoryError::ExecutionError(e))),
        }
    }
}

/// Starts copying the directory `source_directory_path` to `destination_directory_path`.
///
/// Contents of the source directory are copied into the destination directory, which is
/// created first when it does not exist. Run the returned copy by performing its requests.
pub fn copy_directory(
    source_directory_path: String,
    destination_directory_path: String,
    options: DirectoryCopyOptions,
) -> (r: (DirectoryCopy, FsRequest))
    ensures
        r.0.well_formed(),
        r.0.destination_directory_rule == options.destination_directory_rule,
        r.0.progress_settings is None,
        r.0.phase matches DirectoryCopyPhase::Preparing(p) && p == (DirectoryCopyPreparation {
            destination_directory_path,
            destination_directory_rule: options.destination_directory_rule,
            copy_depth_limit: options.copy_depth_limit,
            symlink_behaviour: options.symlink_behaviour,
            broken_symlink_behaviour: options.broken_symlink_behaviour,
            stage: CopyPreparationStage::ValidatingSource(SourceDirectoryValidation {
                source_directory_path,
                phase: SourceValidationPhase::AwaitExistence,
            }),
        }),
        r.1@ == (crate::requests::RequestView::SymlinkMetadata { path: source_directory_path@ }),
{
    DirectoryCopy::start(source_directory_path, destination_directory_path, options, None)
}

/// Starts copying the directory `source_directory_path` to `destination_directory_path`,
/// with progress reports (see [`DirectoryCopy::resume`]).
pub fn copy_directory_with_progress(
    source_directory_path: String,
    destination_directory_path: String,
    options: DirectoryCopyWithProgressOptions,
) -> (r: (DirectoryCopy, FsRequest))
    ensures
        r.0.well_formed(),
        r.0.destination_directory_rule == options.destination_directory_rule,
        r.0.progress_settings == Some(CopyProgressSettings {
            read_buffer_size: options.read_buffer_size,
            write_buffer_size: options.write_buffer_size,
            progress_update_byte_interval: options.progress_update_byte_interval,
        }),
        r.0.phase matches DirectoryCopyPhase::Preparing(p) && p == (DirectoryCopyPreparation {
            destination_directory_path,
            destination_directory_rule: options.destination_directory_rule,
            copy_depth_limit: options.copy_depth_limit,
            symlink_behaviour: options.symlink_behaviour,
            broken_symlink_behaviour: options.broken_symlink_behaviour,
            stage: CopyPreparationStage::ValidatingSource(SourceDirectoryValidation {
                source_directory_path,
                phase: SourceValidationPhase::AwaitExistence,
            }),
        }),
        r.1@ == (crate::requests::RequestView::SymlinkMetadata { path: source_directory_path@ }),
{
    DirectoryCopy::start(
        source_directory_path,
        destination_directory_path,
        DirectoryCopyOptions {
            destination_directory_rule: options.destination_directory_rule,
            copy_depth_limit: options.copy_depth_limit,
            symlink_behaviour: options.symlink_behaviour,
            broken_symlink_behaviour: options.broken_symlink_behaviour,
        },
        Some(CopyProgressSettings {
            read_buffer_size: options.read_buffer_size,
            write_buffer_size: options.write_buffer_size,
            progress_update_byte_interval: options.progress_update_byte_interval,
        }),
    )
}

} // verus!
