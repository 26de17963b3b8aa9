use std::io;

use fs_more::error::{FileError, FileRemoveError, FileSizeError};
use fs_more::file::{
    copy_file, copy_file_with_progress, file_size_in_bytes, final_progress_after_rename, move_file,
    remove_file, CollidingFileBehaviour, CopyFileFinished, CopyFileOptions, CopyFileWithProgressOptions,
    FileMoveFinished, FileMoveMethod, FileMoveOptions, FileProgress, ProgressWriter, TransferOutcome,
};
use fs_more::requests::{EntryMetadata, EntryType, FsRequest, FsResponse, IoFailure, MachineStep};

fn metadata(entry_type: EntryType, len: u64) -> FsResponse {
    FsResponse::Metadata(Ok(EntryMetadata { entry_type, len }))
}

fn missing() -> FsResponse {
    FsResponse::Metadata(Err(IoFailure { not_found: true, error: io::Error::new(io::ErrorKind::NotFound, "missing") }))
}

fn denied() -> IoFailure {
    IoFailure { not_found: false, error: io::Error::new(io::ErrorKind::PermissionDenied, "denied") }
}

fn path(p: &str) -> FsResponse {
    FsResponse::Path(Ok(p.to_string()))
}

fn request_path(step: &MachineStep<Result<TransferOutcome, FileError>>) -> String {
    match step {
        MachineStep::Perform(FsRequest::SymlinkMetadata { path }) => format!("symlink_metadata {}", path),
        MachineStep::Perform(FsRequest::Metadata { path }) => format!("metadata {}", path),
        MachineStep::Perform(FsRequest::Canonicalize { path }) => format!("canonicalize {}", path),
        MachineStep::Perform(FsRequest::CopyFile { source_path, destination_path }) => {
            format!("copy {} {}", source_path, destination_path)
        },
        MachineStep::Perform(FsRequest::CopyFileWithProgress { source_path, destination_path, .. }) => {
            format!("copy-with-progress {} {}", source_path, destination_path)
        },
        MachineStep::Perform(FsRequest::Rename { from, to }) => format!("rename {} {}", from, to),
        MachineStep::Perform(FsRequest::RemoveFile { path }) => format!("remove {}", path),
        MachineStep::Perform(other) => format!("{:?}", other),
        MachineStep::Finished(result) => format!("finished {:?}", result),
    }
}

#[test]
fn copying_to_a_free_destination_creates_it() {
    let (mut copy, first) = copy_file("/src/a.txt".to_string(), "/dst/a.txt".to_string(), CopyFileOptions::default());
    assert!(matches!(first, FsRequest::SymlinkMetadata { ref path } if path == "/src/a.txt"));
    let step = copy.resume(metadata(EntryType::File, 5));
    assert_eq!(request_path(&step), "metadata /src/a.txt");
    let step = copy.resume(metadata(EntryType::File, 5));
    assert_eq!(request_path(&step), "canonicalize /src/a.txt");
    let step = copy.resume(path("/src/a.txt"));
    assert_eq!(request_path(&step), "symlink_metadata /dst/a.txt");
    let step = copy.resume(missing());
    assert_eq!(request_path(&step), "copy /src/a.txt /dst/a.txt");
    let step = copy.resume(FsResponse::Bytes(Ok(5)));
    match step {
        MachineStep::Finished(Ok(outcome)) => {
            assert_eq!(CopyFileFinished::from_outcome(outcome), CopyFileFinished::Created { bytes_copied: 5 });
        },
        other => panic!("unexpected step {:?}", other),
    }
}

fn copy_onto_existing(behaviour: CollidingFileBehaviour) -> MachineStep<Result<TransferOutcome, FileError>> {
    let (mut copy, _) = copy_file(
        "/src/a.txt".to_string(),
        "/dst/a.txt".to_string(),
        CopyFileOptions { colliding_file_behaviour: behaviour },
    );
    copy.resume(metadata(EntryType::File, 5));
    copy.resume(metadata(EntryType::File, 5));
    copy.resume(path("/src/a.txt"));
    copy.resume(metadata(EntryType::File, 9));
    copy.resume(path("/dst/a.txt"))
}

#[test]
fn an_existing_destination_aborts_the_copy() {
    match copy_onto_existing(CollidingFileBehaviour::Abort) {
        MachineStep::Finished(Err(FileError::DestinationPathAlreadyExists { path })) => assert_eq!(path, "/dst/a.txt"),
        other => panic!("unexpected step {:?}", other),
    }
}

#[test]
fn an_existing_destination_is_skipped() {
    match copy_onto_existing(CollidingFileBehaviour::Skip) {
        MachineStep::Finished(Ok(outcome)) => {
            assert_eq!(outcome, TransferOutcome::Skipped);
            assert_eq!(CopyFileFinished::from_outcome(outcome), CopyFileFinished::Skipped);
        },
        other => panic!("unexpected step {:?}", other),
    }
}

#[test]
fn an_existing_destination_is_overwritten() {
    let (mut copy, _) = copy_file(
        "/src/a.txt".to_string(),
        "/dst/a.txt".to_string(),
        CopyFileOptions { colliding_file_behaviour: CollidingFileBehaviour::Overwrite },
    );
    copy.resume(metadata(EntryType::File, 5));
    copy.resume(metadata(EntryType::File, 5));
    copy.resume(path("/src/a.txt"));
    copy.resume(metadata(EntryType::File, 9));
    let step = copy.resume(path("/dst/a.txt"));
    assert_eq!(request_path(&step), "copy /src/a.txt /dst/a.txt");
    match copy.resume(FsResponse::Bytes(Ok(5))) {
        MachineStep::Finished(Ok(outcome)) => {
            assert_eq!(CopyFileFinished::from_outcome(outcome), CopyFileFinished::Overwritten { bytes_copied: 5 });
        },
        other => panic!("unexpected step {:?}", other),
    }
}

#[test]
fn a_file_is_never_copied_onto_itself() {
    let (mut copy, _) = copy_file(
        "/src/a.txt".to_string(),
        "/src/./a.txt".to_string(),
        CopyFileOptions { colliding_file_behaviour: CollidingFileBehaviour::Overwrite },
    );
    copy.resume(metadata(EntryType::File, 5));
    copy.resume(metadata(EntryType::File, 5));
    copy.resume(path("/src/a.txt"));
    copy.resume(metadata(EntryType::File, 5));
    match copy.resume(path("/src/a.txt")) {
        MachineStep::Finished(Err(FileError::SourceAndDestinationAreTheSame { path })) => assert_eq!(path, "/src/a.txt"),
        other => panic!("unexpected step {:?}", other),
    }
}

#[test]
fn a_missing_source_fails_the_copy() {
    let (mut copy, _) = copy_file("/src/none".to_string(), "/dst/x".to_string(), CopyFileOptions::default());
    match copy.resume(missing()) {
        MachineStep::Finished(Err(FileError::SourceFileNotFound { path })) => assert_eq!(path, "/src/none"),
        other => panic!("unexpected step {:?}", other),
    }
}

#[test]
fn a_directory_source_is_not_a_file() {
    let (mut copy, _) = copy_file("/src/dir".to_string(), "/dst/x".to_string(), CopyFileOptions::default());
    copy.resume(metadata(EntryType::Directory, 4096));
    match copy.resume(metadata(EntryType::Directory, 4096)) {
        MachineStep::Finished(Err(FileError::SourcePathNotAFile { path })) => assert_eq!(path, "/src/dir"),
        other => panic!("unexpected step {:?}", other),
    }
}

#[test]
fn an_unreadable_source_is_reported() {
    let (mut copy, _) = copy_file("/src/a".to_string(), "/dst/a".to_string(), CopyFileOptions::default());
    match copy.resume(FsResponse::Metadata(Err(denied()))) {
        MachineStep::Finished(Err(FileError::UnableToAccessSourceFile { path, .. })) => assert_eq!(path, "/src/a"),
        other => panic!("unexpected step {:?}", other),
    }
}

#[test]
fn an_unreadable_destination_is_reported() {
    let (mut copy, _) = copy_file("/src/a".to_string(), "/dst/a".to_string(), CopyFileOptions::default());
    copy.resume(metadata(EntryType::File, 1));
    copy.resume(metadata(EntryType::File, 1));
    copy.resume(path("/src/a"));
    match copy.resume(FsResponse::Metadata(Err(denied()))) {
        MachineStep::Finished(Err(FileError::UnableToAccessDestinationFile { path, .. })) => assert_eq!(path, "/dst/a"),
        other => panic!("unexpected step {:?}", other),
    }
}

#[test]
fn a_failed_copy_is_an_other_io_error() {
    let (mut copy, _) = copy_file("/src/a".to_string(), "/dst/a".to_string(), CopyFileOptions::default());
    copy.resume(metadata(EntryType::File, 1));
    copy.resume(metadata(EntryType::File, 1));
    copy.resume(path("/src/a"));
    copy.resume(missing());
    match copy.resume(FsResponse::Bytes(Err(denied()))) {
        MachineStep::Finished(Err(FileError::OtherIoError { .. })) => {},
        other => panic!("unexpected step {:?}", other),
    }
}

#[test]
fn copying_with_progress_asks_for_a_reporting_copy() {
    let options = CopyFileWithProgressOptions { progress_update_byte_interval: 7, ..Default::default() };
    let (mut copy, _) = copy_file_with_progress("/src/a".to_string(), "/dst/a".to_string(), options);
    copy.resume(metadata(EntryType::File, 1));
    copy.resume(metadata(EntryType::File, 1));
    copy.resume(path("/src/a"));
    match copy.resume(missing()) {
        MachineStep::Perform(FsRequest::CopyFileWithProgress { source_path, destination_path, progress_update_byte_interval, .. }) => {
            assert_eq!(source_path, "/src/a");
            assert_eq!(destination_path, "/dst/a");
            assert_eq!(progress_update_byte_interval, 7);
        },
        other => panic!("unexpected step {:?}", other),
    }
}

#[test]
fn moving_renames_when_possible() {
    let (mut mv, _) = move_file("/src/a".to_string(), "/dst/a".to_string(), FileMoveOptions::default());
    mv.resume(metadata(EntryType::File, 3));
    mv.resume(metadata(EntryType::File, 3));
    mv.resume(path("/src/a"));
    let step = mv.resume(missing());
    assert_eq!(request_path(&step), "rename /src/a /dst/a");
    let step = mv.resume(FsResponse::Done(Ok(())));
    assert_eq!(request_path(&step), "metadata /dst/a");
    match mv.resume(metadata(EntryType::File, 3)) {
        MachineStep::Finished(Ok(outcome)) => {
            assert_eq!(
                FileMoveFinished::from_outcome(outcome),
                FileMoveFinished::Created { bytes_copied: 3, method: FileMoveMethod::Rename }
            );
            assert_eq!(final_progress_after_rename(&outcome), Some(FileProgress { bytes_finished: 3, bytes_total: 3 }));
        },
        other => panic!("unexpected step {:?}", other),
    }
}

#[test]
fn moving_falls_back_on_copy_and_delete() {
    let (mut mv, _) = move_file("/src/a".to_string(), "/dst/a".to_string(), FileMoveOptions::default());
    mv.resume(metadata(EntryType::File, 3));
    mv.resume(metadata(EntryType::File, 3));
    mv.resume(path("/src/a"));
    mv.resume(missing());
    let step = mv.resume(FsResponse::Done(Err(denied())));
    assert_eq!(request_path(&step), "copy /src/a /dst/a");
    let step = mv.resume(FsResponse::Bytes(Ok(3)));
    assert_eq!(request_path(&step), "metadata /src/a");
    let step = mv.resume(metadata(EntryType::File, 3));
    assert_eq!(request_path(&step), "symlink_metadata /src/a");
    let step = mv.resume(metadata(EntryType::File, 3));
    assert_eq!(request_path(&step), "remove /src/a");
    match mv.resume(FsResponse::Done(Ok(()))) {
        MachineStep::Finished(Ok(outcome)) => {
            assert_eq!(
                FileMoveFinished::from_outcome(outcome),
                FileMoveFinished::Created { bytes_copied: 3, method: FileMoveMethod::CopyAndDelete }
            );
            assert_eq!(final_progress_after_rename(&outcome), None);
        },
        other => panic!("unexpected step {:?}", other),
    }
}

#[test]
fn removing_a_missing_file_fails() {
    let (mut removal, first) = remove_file("/gone".to_string());
    assert!(matches!(first, FsRequest::Metadata { ref path } if path == "/gone"));
    match removal.resume(missing()) {
        MachineStep::Finished(Err(FileRemoveError::NotFound { path })) => assert_eq!(path, "/gone"),
        other => panic!("unexpected step {:?}", other),
    }
}

#[test]
fn file_sizes_do_not_follow_links() {
    let (mut query, first) = file_size_in_bytes("/link".to_string());
    assert!(matches!(first, FsRequest::SymlinkMetadata { ref path } if path == "/link"));
    match query.resume(metadata(EntryType::Symlink, 5)) {
        MachineStep::Finished(Ok(size)) => assert_eq!(size, 5),
        other => panic!("unexpected step {:?}", other),
    }
}

#[test]
fn file_sizes_are_read_at_once() {
    let (mut query, _) = file_size_in_bytes("/file".to_string());
    match query.resume(metadata(EntryType::File, 1234)) {
        MachineStep::Finished(Ok(size)) => assert_eq!(size, 1234),
        other => panic!("unexpected step {:?}", other),
    }
}

#[test]
fn the_size_of_a_directory_is_no_file_size() {
    let (mut query, _) = file_size_in_bytes("/dir".to_string());
    match query.resume(metadata(EntryType::Directory, 4096)) {
        MachineStep::Finished(Err(FileSizeError::NotAFile { path })) => assert_eq!(path, "/dir"),
        other => panic!("unexpected step {:?}", other),
    }
}

#[test]
fn reports_carry_every_byte_accepted_so_far() {
    let mut writer = ProgressWriter::new(Vec::<u8>::new(), 0u8, 5, 30);
    assert_eq!(writer.report_after_write(Some(3)), None);
    assert_eq!(writer.report_after_write(None), None);
    assert_eq!(writer.report_after_write(Some(4)), Some(FileProgress { bytes_finished: 7, bytes_total: 30 }));
    assert_eq!(writer.report_after_write(Some(5)), None);
    assert_eq!(writer.report_after_write(Some(1)), Some(FileProgress { bytes_finished: 13, bytes_total: 30 }));
    let (_, progress, _) = writer.into_inner();
    assert_eq!(progress, FileProgress { bytes_finished: 13, bytes_total: 30 });
}

#[test]
fn a_finished_copy_reports_every_byte_copied() {
    let mut writer = ProgressWriter::new(Vec::<u8>::new(), 7u8, 10, 25);
    assert!(!writer.record_write(Some(4)));
    assert!(writer.record_write(Some(8)));
    assert!(!writer.record_write(Some(3)));
    let (inner, progress, handler) = writer.finish(15);
    assert_eq!(progress, FileProgress { bytes_finished: 15, bytes_total: 25 });
    assert_eq!(inner, Vec::<u8>::new());
    assert_eq!(handler, 7u8);

    let writer = ProgressWriter::new(Vec::<u8>::new(), 0u8, 10, 0);
    let (_, progress, _) = writer.finish(0);
    assert_eq!(progress, FileProgress { bytes_finished: 0, bytes_total: 0 });
}

#[test]
fn progress_writer_reports_after_each_interval() {
    let mut writer = ProgressWriter::new(Vec::<u8>::new(), 0u8, 10, 25);
    assert!(!writer.record_write(Some(4)));
    assert!(!writer.record_write(Some(5)));
    assert!(writer.record_write(Some(2)));
    assert_eq!(writer.progress(), FileProgress { bytes_finished: 11, bytes_total: 25 });
    assert!(!writer.record_write(None));
    assert!(!writer.record_write(Some(9)));
    assert!(writer.record_write(Some(5)));
    let (_, progress, _) = writer.into_inner();
    assert_eq!(progress, FileProgress { bytes_finished: 25, bytes_total: 25 });
}
