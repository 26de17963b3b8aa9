//! Validating the source and destination directories of a copy or move.
use vstd::prelude::*;

use super::common::DestinationDirectoryRule;
use crate::error::{DestinationDirectoryPathValidationError, SourceDirectoryPathValidationError};
use crate::path::{path_starts_with, path_starts_with_base};
use crate::requests::{
    answers, existence_of, reports_directory, EntryType, FsRequest, FsResponse, MachineStep,
};

verus! {

/// A validated source directory.
#[derive(Clone, Debug)]
pub struct ValidatedSourceDirectory {
    /// The canonical path of the source directory (a symbolic link to it is followed).
    pub directory_path: String,
    /// The source directory path as it was given.
    pub unfollowed_directory_path: String,
    /// Whether the path as given was a symbolic link to a directory.
    pub original_path_was_symlink_to_directory: bool,
}

impl ValidatedSourceDirectory {
    /// A copy of this validated source directory.
    pub fn duplicate(&self) -> (r: Self)
        ensures
            r == *self,
    {
        ValidatedSourceDirectory {
            directory_path: self.directory_path.clone(),
            unfollowed_directory_path: self.unfollowed_directory_path.clone(),
            original_path_was_symlink_to_directory: self.original_path_was_symlink_to_directory,
        }
    }
}

/// Where a source directory validation stands.
#[derive(Debug)]
pub enum SourceValidationPhase {
    /// Waiting for the path's own metadata.
    AwaitExistence,
    /// The path is a symbolic link; waiting for the metadata of its target.
    AwaitLinkTarget,
    /// Waiting for the canonical path.
    AwaitCanonical { was_symlink: bool },
    /// The validation has finished.
    Finished,
}

/// Ensures that a source directory path exists and is a directory (or a symbolic link to one),
/// and resolves it to its canonical path.
#[derive(Debug)]
pub struct SourceDirectoryValidation {
    /// The source directory path as given.
    pub source_directory_path: String,
    /// Where the validation stands.
    pub phase: SourceValidationPhase,
}

/// The outcome of a source directory validation.
pub type SourceValidationResult = Result<ValidatedSourceDirectory, SourceDirectoryPathValidationError>;

impl SourceDirectoryValidation {
    /// The request this validation waits for an answer to.
    pub open spec fn pending_request(self) -> FsRequest {
        match self.phase {
            SourceValidationPhase::AwaitExistence => FsRequest::SymlinkMetadata {
                path: self.source_directory_path,
            },
            SourceValidationPhase::AwaitLinkTarget => FsRequest::Metadata {
                path: self.source_directory_path,
            },
            _ => FsRequest::Canonicalize { path: self.source_directory_path },
        }
    }

    /// Whether `response` can resume this validation.
    pub open spec fn accepts(self, response: FsResponse) -> bool {
        !(self.phase is Finished) && answers(self.pending_request(), response)
    }

    /// This validation in `phase`, asking for that phase's request.
    pub open spec fn go(self, phase: SourceValidationPhase) -> (SourceDirectoryValidation, MachineStep<SourceValidationResult>) {
        let s = SourceDirectoryValidation { phase, ..self };
        (s, MachineStep::Perform(s.pending_request()))
    }

    /// This validation finished with `result`.
    pub open spec fn finish(self, result: SourceValidationResult) -> (SourceDirectoryValidation, MachineStep<SourceValidationResult>) {
        (SourceDirectoryValidation { phase: SourceValidationPhase::Finished, ..self }, MachineStep::Finished(result))
    }

    /// The next state and step of this validation, given the response to its pending request.
    pub open spec fn next(self, response: FsResponse) -> (SourceDirectoryValidation, MachineStep<SourceValidationResult>) {
        let path = self.source_directory_path;
        match (self.phase, response) {
            (SourceValidationPhase::AwaitExistence, FsResponse::Metadata(m)) => match existence_of(m) {
                Err(e) => self.finish(Err(SourceDirectoryPathValidationError::UnableToAccess { directory_path: path, error: e })),
                Ok(false) => self.finish(Err(SourceDirectoryPathValidationError::NotFound { directory_path: path })),
                Ok(true) => if m->Ok_0.entry_type == EntryType::Symlink {
                    self.go(SourceValidationPhase::AwaitLinkTarget)
                } else if m->Ok_0.entry_type == EntryType::Directory {
                    self.go(SourceValidationPhase::AwaitCanonical { was_symlink: false })
                } else {
                    self.finish(Err(SourceDirectoryPathValidationError::NotADirectory { path }))
                },
            },
            (SourceValidationPhase::AwaitLinkTarget, FsResponse::Metadata(m)) => match m {
                Err(f) => self.finish(Err(SourceDirectoryPathValidationError::UnableToAccess { directory_path: path, error: f.error })),
                Ok(meta) => if meta.entry_type == EntryType::Directory {
                    self.go(SourceValidationPhase::AwaitCanonical { was_symlink: true })
                } else {
                    self.finish(Err(SourceDirectoryPathValidationError::NotADirectory { path }))
                },
            },
            (SourceValidationPhase::AwaitCanonical { was_symlink }, FsResponse::Path(p)) => match p {
                Err(f) => self.finish(Err(SourceDirectoryPathValidationError::UnableToAccess { directory_path: path, error: f.error })),
                Ok(canonical) => self.finish(Ok(ValidatedSourceDirectory {
                    directory_path: canonical,
                    unfollowed_directory_path: path,
                    original_path_was_symlink_to_directory: was_symlink,
                })),
            },
            _ => (self, MachineStep::Perform(self.pending_request())),
        }
    }

    /// Starts validating `source_directory_path`.
    pub fn start(source_directory_path: String) -> (r: (SourceDirectoryValidation, FsRequest))
        ensures
            r.0 == (SourceDirectoryValidation { source_directory_path, phase: SourceValidationPhase::AwaitExistence }),
            r.1 == r.0.pending_request(),
    {
        let request = FsRequest::SymlinkMetadata { path: source_directory_path.clone() };
        (SourceDirectoryValidation { source_directory_path, phase: SourceValidationPhase::AwaitExistence }, request)
    }

    /// Whether `response` can resume this validation.
    pub fn can_accept(&self, response: &FsResponse) -> (r: bool)
        ensures
            r == self.accepts(*response),
    {
        match (&self.phase, response) {
            (SourceValidationPhase::AwaitExistence, FsResponse::Metadata(_)) => true,
            (SourceValidationPhase::AwaitLinkTarget, FsResponse::Metadata(_)) => true,
            (SourceValidationPhase::AwaitCanonical { .. }, FsResponse::Path(_)) => true,
            _ => false,
        }
    }

    /// Resumes the validation with the response to its pending request.
    pub fn resume(&mut self, response: FsResponse) -> (step: MachineStep<SourceValidationResult>)
        requires
            old(self).accepts(response),
        ensures
            (*final(self), step) == old(self).next(response),
    {
        let path = self.source_directory_path.clone();
        let mut phase = SourceValidationPhase::Finished;
        std::mem::swap(&mut phase, &mut self.phase);
        match (phase, response) {
            (SourceValidationPhase::AwaitExistence, FsResponse::Metadata(m)) => match m {
                Err(failure) => if failure.not_found {
                    MachineStep::Finished(Err(SourceDirectoryPathValidationError::NotFound { directory_path: path }))
                } else {
                    MachineStep::Finished(Err(SourceDirectoryPathValidationError::UnableToAccess {
                        directory_path: path,
                        error: failure.error,
                    }))
                },
                Ok(meta) => if meta.entry_type == EntryType::Symlink {
                    self.phase = SourceValidationPhase::AwaitLinkTarget;
                    MachineStep::Perform(FsRequest::Metadata { path })
                } else if meta.entry_type == EntryType::Directory {
                    self.phase = SourceValidationPhase::AwaitCanonical { was_symlink: false };
                    MachineStep::Perform(FsRequest::Canonicalize { path })
                } else {
                    MachineStep::Finished(Err(SourceDirectoryPathValidationError::NotADirectory { path }))
                },
            },
            (SourceValidationPhase::AwaitLinkTarget, FsResponse::Metadata(m)) => match m {
                Err(f) => MachineStep::Finished(Err(SourceDirectoryPathValidationError::UnableToAccess {
                    directory_path: path,
                    error: f.error,
                })),
                Ok(meta) => if meta.entry_type == EntryType::Directory {
                    self.phase = SourceValidationPhase::AwaitCanonical { was_symlink: true };
                    MachineStep::Perform(FsRequest::Canonicalize { path })
                } else {
                    MachineStep::Finished(Err(SourceDirectoryPathValidationError::NotADirectory { path }))
                },
            },
            (SourceValidationPhase::AwaitCanonical { was_symlink }, FsResponse::Path(p)) => match p {
                Err(f) => MachineStep::Finished(Err(SourceDirectoryPathValidationError::UnableToAccess {
                    directory_path: path,
                    error: f.error,
                })),
                Ok(canonical) => MachineStep::Finished(Ok(ValidatedSourceDirectory {
                    directory_path: canonical,
                    unfollowed_directory_path: path,
                    original_path_was_symlink_to_directory: was_symlink,
                })),
            },
            (phase, _) => {
                self.phase = phase;
                MachineStep::Finished(Err(SourceDirectoryPathValidationError::NotADirectory { path }))
            },
        }
    }
}

/// The state of a destination directory before a copy or move.
#[derive(Clone, Copy, Debug, PartialEq, Eq, Structural)]
pub enum DestinationDirectoryState {
    /// The destination directory does not exist.
    DoesNotExist,
    /// The destination directory exists, but is empty.
    IsEmpty,
    /// The destination directory exists, and is not empty.
    IsNotEmpty,
}

impl DestinationDirectoryState {
    /// Whether the destination directory exists.
    pub fn is_existing(&self) -> (r: bool)
        ensures
            r == !(*self is DoesNotExist),
    {
        match self {
            Self::DoesNotExist => false,
            _ => true,
        }
    }
}

/// A validated destination directory.
#[derive(Clone, Debug)]
pub struct ValidatedDestinationDirectory {
    /// The destination directory path: canonical when it exists, as given otherwise.
    pub directory_path: String,
    /// The state of the destination directory.
    pub state: DestinationDirectoryState,
}

/// Where a destination directory validation stands.
#[derive(Debug)]
pub enum DestinationValidationPhase {
    /// Waiting for the path's own metadata, to learn whether it exists.
    AwaitExistence,
    /// Waiting for the metadata of what the path leads to, to learn whether it is a directory.
    AwaitTargetType,
    /// Waiting for the canonical path.
    AwaitCanonical,
    /// Waiting for the first entry of the directory, to learn whether it is empty.
    AwaitFirstEntry { resolved_path: String },
    /// The validation has finished.
    Finished,
}

/// Ensures that a destination directory path respects a [`DestinationDirectoryRule`],
/// and resolves it to its canonical path if it exists.
#[derive(Debug)]
pub struct DestinationDirectoryValidation {
    /// The destination directory path as given.
    pub destination_directory_path: String,
    /// The rule the destination must respect.
    pub destination_directory_rule: DestinationDirectoryRule,
    /// Where the validation stands.
    pub phase: DestinationValidationPhase,
}

/// The outcome of a destination directory validation.
pub type DestinationValidationResult = Result<
    ValidatedDestinationDirectory,
    DestinationDirectoryPathValidationError,
>;

/// The outcome of validating a destination directory found at `path` in `state` against `rule`.
pub open spec fn destination_rule_outcome(
    path: String,
    state: DestinationDirectoryState,
    rule: DestinationDirectoryRule,
) -> DestinationValidationResult {
    if rule is DisallowExisting && !(state is DoesNotExist) {
        Err(DestinationDirectoryPathValidationError::AlreadyExists { path, destination_directory_rule: rule })
    } else if rule is AllowEmpty && state is IsNotEmpty {
        Err(DestinationDirectoryPathValidationError::NotEmpty { directory_path: path, destination_directory_rule: rule })
    } else {
        Ok(ValidatedDestinationDirectory { directory_path: path, state })
    }
}

/// Checks a destination directory found at `path` in `state` against `rule`.
fn apply_destination_rule(
    path: String,
    state: DestinationDirectoryState,
    rule: DestinationDirectoryRule,
) -> (r: DestinationValidationResult)
    ensures
        r == destination_rule_outcome(path, state, rule),
{
    match rule {
        DestinationDirectoryRule::DisallowExisting => if state.is_existing() {
            return Err(DestinationDirectoryPathValidationError::AlreadyExists { path, destination_directory_rule: rule });
        },
        DestinationDirectoryRule::AllowEmpty => if let DestinationDirectoryState::IsNotEmpty = state {
            return Err(DestinationDirectoryPathValidationError::NotEmpty { directory_path: path, destination_directory_rule: rule });
        },
        _ => {},
    }
    Ok(ValidatedDestinationDirectory { directory_path: path, state })
}

impl DestinationDirectoryValidation {
    /// The request this validation waits for an answer to.
    pub open spec fn pending_request(self) -> FsRequest {
        match self.phase {
            DestinationValidationPhase::AwaitExistence => FsRequest::SymlinkMetadata {
                path: self.destination_directory_path,
            },
            DestinationValidationPhase::AwaitTargetType => FsRequest::Metadata {
                path: self.destination_directory_path,
            },
            DestinationValidationPhase::AwaitCanonical => FsRequest::Canonicalize {
                path: self.destination_directory_path,
            },
            DestinationValidationPhase::AwaitFirstEntry { resolved_path } => FsRequest::ReadFirstDirectoryEntry {
                path: resolved_path,
            },
            DestinationValidationPhase::Finished => FsRequest::Canonicalize { path: self.destination_directory_path },
        }
    }

    /// Whether `response` can resume this validation.
    pub open spec fn accepts(self, response: FsResponse) -> bool {
        !(self.phase is Finished) && answers(self.pending_request(), response)
    }

    /// This validation in `phase`, asking for that phase's request.
    pub open spec fn go(self, phase: DestinationValidationPhase) -> (DestinationDirectoryValidation, MachineStep<DestinationValidationResult>) {
        let s = DestinationDirectoryValidation { phase, ..self };
        (s, MachineStep::Perform(s.pending_request()))
    }

    /// This validation finished with `result`.
    pub open spec fn finish(self, result: DestinationValidationResult) -> (DestinationDirectoryValidation, MachineStep<DestinationValidationResult>) {
        (DestinationDirectoryValidation { phase: DestinationValidationPhase::Finished, ..self }, MachineStep::Finished(result))
    }

    /// The next state and step of this validation, given the response to its pending request.
    pub open spec fn next(self, response: FsResponse) -> (DestinationDirectoryValidation, MachineStep<DestinationValidationResult>) {
        let path = self.destination_directory_path;
        let rule = self.destination_directory_rule;
        match (self.phase, response) {
            (DestinationValidationPhase::AwaitExistence, FsResponse::Metadata(m)) => match existence_of(m) {
                Err(e) => self.finish(Err(DestinationDirectoryPathValidationError::UnableToAccess { directory_path: path, error: e })),
                Ok(false) => self.finish(destination_rule_outcome(path, DestinationDirectoryState::DoesNotExist, rule)),
                Ok(true) => self.go(DestinationValidationPhase::AwaitTargetType),
            },
            (DestinationValidationPhase::AwaitTargetType, FsResponse::Metadata(m)) => if reports_directory(m) {
                self.go(DestinationValidationPhase::AwaitCanonical)
            } else {
                self.finish(Err(DestinationDirectoryPathValidationError::NotADirectory { directory_path: path }))
            },
            (DestinationValidationPhase::AwaitCanonical, FsResponse::Path(p)) => match p {
                Err(f) => self.finish(Err(DestinationDirectoryPathValidationError::UnableToAccess { directory_path: path, error: f.error })),
                Ok(resolved_path) => self.go(DestinationValidationPhase::AwaitFirstEntry { resolved_path }),
            },
            (DestinationValidationPhase::AwaitFirstEntry { resolved_path }, FsResponse::FirstEntry(r)) => match r {
                Err(f) => self.finish(Err(DestinationDirectoryPathValidationError::UnableToAccess { directory_path: resolved_path, error: f.error })),
                Ok(None) => self.finish(destination_rule_outcome(resolved_path, DestinationDirectoryState::IsEmpty, rule)),
                Ok(Some(Err(f))) => self.finish(Err(DestinationDirectoryPathValidationError::UnableToAccess { directory_path: resolved_path, error: f.error })),
                Ok(Some(Ok(()))) => self.finish(destination_rule_outcome(resolved_path, DestinationDirectoryState::IsNotEmpty, rule)),
            },
            _ => (self, MachineStep::Perform(self.pending_request())),
        }
    }

    /// Starts validating `destination_directory_path` against `destination_directory_rule`.
    pub fn start(
        destination_directory_path: String,
        destination_directory_rule: DestinationDirectoryRule,
    ) -> (r: (DestinationDirectoryValidation, FsRequest))
        ensures
            r.0 == (DestinationDirectoryValidation {
                destination_directory_path,
                destination_directory_rule,
                phase: DestinationValidationPhase::AwaitExistence,
            }),
            r.1 == r.0.pending_request(),
    {
        let request = FsRequest::SymlinkMetadata { path: destination_directory_path.clone() };
        (
            DestinationDirectoryValidation {
                destination_directory_path,
                destination_directory_rule,
                phase: DestinationValidationPhase::AwaitExistence,
            },
            request,
        )
    }

    /// Whether `response` can resume this validation.
    pub fn can_accept(&self, response: &FsResponse) -> (r: bool)
        ensures
            r == self.accepts(*response),
    {
        match (&self.phase, response) {
            (DestinationValidationPhase::AwaitExistence, FsResponse::Metadata(_)) => true,
            (DestinationValidationPhase::AwaitTargetType, FsResponse::Metadata(_)) => true,
            (DestinationValidationPhase::AwaitCanonical, FsResponse::Path(_)) => true,
            (DestinationValidationPhase::AwaitFirstEntry { .. }, FsResponse::FirstEntry(_)) => true,
            _ => false,
        }
    }

    /// Resumes the validation with the response to its pending request.
    pub fn resume(&mut self, response: FsResponse) -> (step: MachineStep<DestinationValidationResult>)
        requires
            old(self).accepts(response),
        ensures
            (*final(self), step) == old(self).next(response),
    {
        let path = self.destination_directory_path.clone();
        let rule = self.destination_directory_rule;
        let mut phase = DestinationValidationPhase::Finished;
        std::mem::swap(&mut phase, &mut self.phase);
        match (phase, response) {
            (DestinationValidationPhase::AwaitExistence, FsResponse::Metadata(m)) => match m {
                Ok(_) => {
                    self.phase = DestinationValidationPhase::AwaitTargetType;
                    MachineStep::Perform(FsRequest::Metadata { path })
                },
                Err(failure) => if failure.not_found {
                    MachineStep::Finished(apply_destination_rule(path, DestinationDirectoryState::DoesNotExist, rule))
                } else {
                    MachineStep::Finished(Err(DestinationDirectoryPathValidationError::UnableToAccess {
                        directory_path: path,
                        error: failure.error,
                    }))
                },
            },
            (DestinationValidationPhase::AwaitTargetType, FsResponse::Metadata(m)) => {
                let is_directory = match m {
                    Ok(meta) => meta.entry_type == EntryType::Directory,
                    Err(_) => false,
                };
                if is_directory {
                    self.phase = DestinationValidationPhase::AwaitCanonical;
                    MachineStep::Perform(FsRequest::Canonicalize { path })
                } else {
                    MachineStep::Finished(Err(DestinationDirectoryPathValidationError::NotADirectory { directory_path: path }))
                }
            },
            (DestinationValidationPhase::AwaitCanonical, FsResponse::Path(p)) => match p {
                Err(f) => MachineStep::Finished(Err(DestinationDirectoryPathValidationError::UnableToAccess {
                    directory_path: path,
                    error: f.error,
                })),
                Ok(resolved_path) => {
                    let request = FsRequest::ReadFirstDirectoryEntry { path: resolved_path.clone() };
                    self.phase = DestinationValidationPhase::AwaitFirstEntry { resolved_path };
                    MachineStep::Perform(request)
                },
            },
            (DestinationValidationPhase::AwaitFirstEntry { resolved_path }, FsResponse::FirstEntry(r)) => match r {
                Err(f) => MachineStep::Finished(Err(DestinationDirectoryPathValidationError::UnableToAccess {
                    directory_path: resolved_path,
                    error: f.error,
                })),
                Ok(None) => MachineStep::Finished(apply_destination_rule(resolved_path, DestinationDirectoryState::IsEmpty, rule)),
                Ok(Some(Err(f))) => MachineStep::Finished(Err(DestinationDirectoryPathValidationError::UnableToAccess {
                    directory_path: resolved_path,
                    error: f.error,
                })),
                Ok(Some(Ok(()))) => MachineStep::Finished(apply_destination_rule(resolved_path, DestinationDirectoryState::IsNotEmpty, rule)),
            },
            (phase, _) => {
                self.phase = phase;
                MachineStep::Finished(Err(DestinationDirectoryPathValidationError::NotADirectory { directory_path: path }))
            },
        }
    }
}

/// Ensures the destination directory is neither the source directory nor inside it.
/// Both paths must already be canonical.
pub fn validate_source_destination_directory_pair(
    source_directory_path: &String,
    destination_directory_path: &String,
) -> (r: Result<(), DestinationDirectoryPathValidationError>)
    ensures
        path_starts_with(destination_directory_path@, source_directory_path@) <==> r is Err,
        r matches Err(e) ==> e == (DestinationDirectoryPathValidationError::DescendantOfSourceDirectory {
            destination_directory_path: *destination_directory_path,
            source_directory_path: *source_directory_path,
        }),
{
    if path_starts_with_base(destination_directory_path.as_str(), source_directory_path.as_str()) {
        return Err(DestinationDirectoryPathValidationError::DescendantOfSourceDirectory {
            destination_directory_path: destination_directory_path.clone(),
            source_directory_path: source_directory_path.clone(),
        });
    }
    Ok(())
}

} // verus!
