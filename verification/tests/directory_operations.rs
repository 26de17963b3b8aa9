use std::collections::BTreeMap;
use std::io;

use fs_more::directory::{
    copy_directory, copy_directory_with_progress, directory_size_in_bytes, is_directory_empty, move_directory,
    move_directory_with_progress, BreadthFirstDirectoryIter, BrokenSymlinkBehaviour, CollidingSubDirectoryBehaviour,
    DestinationDirectoryRule, DirectoryCopy, DirectoryCopyDepthLimit, DirectoryCopyFinished, DirectoryCopyOptions,
    DirectoryCopyWithProgressOptions, DirectoryMove, DirectoryMoveAllowedStrategies, DirectoryMoveByCopyOptions,
    DirectoryMoveFinished, DirectoryMoveOperation, DirectoryMoveOptions, DirectoryMoveProgress, DirectoryMoveStrategy,
    DirectoryMoveWithProgressOptions, DirectoryScan, DirectoryScanDepthLimit, DirectoryScanOptions,
    DirectoryScanOptionsV2, DirectoryScanner, DirectoryScannerPerDirectoryIter, ScanEntryDepth, SymlinkBehaviour,
};
use fs_more::error::{
    CopyDirectoryError, CopyDirectoryExecutionError, CopyDirectoryPreparationError, DestinationDirectoryPathValidationError,
    DirectoryEmptinessScanError, DirectoryExecutionPlanError, DirectoryScanError, MoveDirectoryError,
    MoveDirectoryExecutionError, SourceDirectoryPathValidationError,
};
use fs_more::file::CollidingFileBehaviour;
use fs_more::requests::{DirectoryEntryInfo, EntryMetadata, EntryType, FsRequest, FsResponse, IoFailure, MachineStep};

#[derive(Clone, Debug, PartialEq)]
enum Node {
    File(u64),
    Directory,
    Link(String),
}

#[derive(Default)]
struct FakeFs {
    nodes: BTreeMap<String, Node>,
    renames_fail: bool,
}

fn failure(kind: io::ErrorKind) -> IoFailure {
    IoFailure { not_found: kind == io::ErrorKind::NotFound, error: io::Error::new(kind, "fake") }
}

fn parent_of(path: &str) -> String {
    match path.rfind('/') {
        Some(0) => "/".to_string(),
        Some(i) => path[..i].to_string(),
        None => String::new(),
    }
}

fn joined(base: &str, name: &str) -> String {
    if base.ends_with('/') {
        format!("{}{}", base, name)
    } else {
        format!("{}/{}", base, name)
    }
}

impl FakeFs {
    fn with(entries: &[(&str, Node)]) -> Self {
        let mut fs = FakeFs::default();
        fs.nodes.insert("/".to_string(), Node::Directory);
        for (path, node) in entries {
            fs.nodes.insert(path.to_string(), node.clone());
        }
        fs
    }

    fn metadata_of(&self, node: &Node) -> EntryMetadata {
        match node {
            Node::File(len) => EntryMetadata { entry_type: EntryType::File, len: *len },
            Node::Directory => EntryMetadata { entry_type: EntryType::Directory, len: 4096 },
            Node::Link(target) => EntryMetadata { entry_type: EntryType::Symlink, len: target.len() as u64 },
        }
    }

    fn resolve(&self, path: &str) -> Option<String> {
        let mut current = path.to_string();
        for _ in 0..16 {
            match self.nodes.get(&current)? {
                Node::Link(target) => {
                    current = if target.starts_with('/') { target.clone() } else { joined(&parent_of(&current), target) };
                },
                _ => return Some(current),
            }
        }
        None
    }

    fn children(&self, directory: &str) -> Vec<String> {
        let prefix = if directory == "/" { "/".to_string() } else { format!("{}/", directory) };
        self.nodes
            .keys()
            .filter(|k| k.starts_with(&prefix) && k.len() > prefix.len() && !k[prefix.len()..].contains('/'))
            .cloned()
            .collect()
    }

    fn remove_tree(&mut self, path: &str) {
        let prefix = format!("{}/", path);
        self.nodes.retain(|k, _| k != path && !k.starts_with(&prefix));
    }

    fn perform(&mut self, request: FsRequest) -> FsResponse {
        match request {
            FsRequest::SymlinkMetadata { path } => match self.nodes.get(&path) {
                Some(node) => FsResponse::Metadata(Ok(self.metadata_of(node))),
                None => FsResponse::Metadata(Err(failure(io::ErrorKind::NotFound))),
            },
            FsRequest::Metadata { path } => match self.resolve(&path).and_then(|p| self.nodes.get(&p).cloned()) {
                Some(node) => FsResponse::Metadata(Ok(self.metadata_of(&node))),
                None => FsResponse::Metadata(Err(failure(io::ErrorKind::NotFound))),
            },
            FsRequest::Canonicalize { path } => match self.resolve(&path) {
                Some(p) => FsResponse::Path(Ok(p)),
                None => FsResponse::Path(Err(failure(io::ErrorKind::NotFound))),
            },
            FsRequest::ReadLink { path } => match self.nodes.get(&path) {
                Some(Node::Link(target)) => FsResponse::Path(Ok(target.clone())),
                _ => FsResponse::Path(Err(failure(io::ErrorKind::InvalidInput))),
            },
            FsRequest::ReadDirectory { path } => match self.resolve(&path) {
                Some(resolved) if self.nodes.get(&resolved) == Some(&Node::Directory) => {
                    let entries = self
                        .children(&resolved)
                        .into_iter()
                        .map(|child| {
                            let node = self.nodes[&child].clone();
                            let name = child.rsplit('/').next().unwrap().to_string();
                            let metadata = self.metadata_of(&node);
                            Ok(DirectoryEntryInfo {
                                path: joined(&path, &name),
                                file_name: name,
                                file_type: Ok(metadata.entry_type),
                                metadata: Ok(metadata),
                            })
                        })
                        .collect();
                    FsResponse::Listing(Ok(entries))
                },
                _ => FsResponse::Listing(Err(failure(io::ErrorKind::NotFound))),
            },
            FsRequest::ReadFirstDirectoryEntry { path } => match self.resolve(&path) {
                Some(resolved) => {
                    let first = if self.children(&resolved).is_empty() { None } else { Some(Ok(())) };
                    FsResponse::FirstEntry(Ok(first))
                },
                None => FsResponse::FirstEntry(Err(failure(io::ErrorKind::NotFound))),
            },
            FsRequest::CopyFile { source_path, destination_path }
            | FsRequest::CopyFileWithProgress { source_path, destination_path, .. } => {
                match self.resolve(&source_path).and_then(|p| self.nodes.get(&p).cloned()) {
                    Some(Node::File(len)) => {
                        self.nodes.insert(destination_path, Node::File(len));
                        FsResponse::Bytes(Ok(len))
                    },
                    _ => FsResponse::Bytes(Err(failure(io::ErrorKind::NotFound))),
                }
            },
            FsRequest::Rename { from, to } => {
                if self.renames_fail {
                    return FsResponse::Done(Err(failure(io::ErrorKind::Other)));
                }
                let prefix = format!("{}/", from);
                let moved: Vec<(String, Node)> = self
                    .nodes
                    .iter()
                    .filter(|(k, _)| **k == from || k.starts_with(&prefix))
                    .map(|(k, v)| (format!("{}{}", to, &k[from.len()..]), v.clone()))
                    .collect();
                self.remove_tree(&to);
                self.remove_tree(&from);
                for (k, v) in moved {
                    self.nodes.insert(k, v);
                }
                FsResponse::Done(Ok(()))
            },
            FsRequest::RemoveFile { path } => {
                self.nodes.remove(&path);
                FsResponse::Done(Ok(()))
            },
            FsRequest::RemoveDirectoryAll { path } => {
                self.remove_tree(&path);
                FsResponse::Done(Ok(()))
            },
            FsRequest::CreateDirectory { path } => {
                if self.nodes.contains_key(&path) || !self.nodes.contains_key(&parent_of(&path)) {
                    return FsResponse::Done(Err(failure(io::ErrorKind::AlreadyExists)));
                }
                self.nodes.insert(path, Node::Directory);
                FsResponse::Done(Ok(()))
            },
            FsRequest::CreateDirectoryAll { path } => {
                let mut current = path.clone();
                while !current.is_empty() && current != "/" && !self.nodes.contains_key(&current) {
                    self.nodes.insert(current.clone(), Node::Directory);
                    current = parent_of(&current);
                }
                FsResponse::Done(Ok(()))
            },
            FsRequest::CreateSymlink { link_path, target_path } => {
                if self.nodes.contains_key(&link_path) {
                    return FsResponse::Done(Err(failure(io::ErrorKind::AlreadyExists)));
                }
                self.nodes.insert(link_path, Node::Link(target_path));
                FsResponse::Done(Ok(()))
            },
        }
    }
}

fn run_copy(fs: &mut FakeFs, start: (DirectoryCopy, FsRequest)) -> (Result<DirectoryCopyFinished, CopyDirectoryError>, Vec<(usize, u64)>) {
    let (mut copy, mut request) = start;
    let mut reports = Vec::new();
    loop {
        let response = fs.perform(request);
        assert!(copy.can_accept(&response));
        let (report, step) = copy.resume(response);
        if report {
            let progress = copy.progress().unwrap();
            reports.push((progress.current_operation_index.unwrap(), progress.bytes_finished));
        }
        match step {
            MachineStep::Perform(next) => request = next,
            MachineStep::Finished(result) => return (result, reports),
        }
    }
}

fn run_move(fs: &mut FakeFs, start: (DirectoryMove, FsRequest)) -> (Result<DirectoryMoveFinished, MoveDirectoryError>, Vec<DirectoryMoveProgress>) {
    let (mut mv, mut request) = start;
    let mut reports = Vec::new();
    loop {
        let response = fs.perform(request);
        assert!(mv.can_accept(&response));
        let (report, step) = mv.resume(response);
        if let Some(progress) = report {
            reports.push(progress);
        }
        match step {
            MachineStep::Perform(next) => request = next,
            MachineStep::Finished(result) => return (result, reports),
        }
    }
}

fn sample_tree() -> FakeFs {
    FakeFs::with(&[
        ("/src", Node::Directory),
        ("/src/a.txt", Node::File(10)),
        ("/src/sub", Node::Directory),
        ("/src/sub/b.bin", Node::File(3)),
    ])
}

#[test]
fn a_directory_tree_is_copied_to_a_new_destination() {
    let mut fs = sample_tree();
    let (result, reports) = run_copy(
        &mut fs,
        copy_directory("/src".to_string(), "/dst".to_string(), DirectoryCopyOptions::default()),
    );
    let finished = result.unwrap();
    assert_eq!(
        finished,
        DirectoryCopyFinished { total_bytes_copied: 10 + 4096 + 3, files_copied: 2, symlinks_created: 0, directories_created: 2 }
    );
    assert!(reports.is_empty());
    assert_eq!(fs.nodes.get("/dst/a.txt"), Some(&Node::File(10)));
    assert_eq!(fs.nodes.get("/dst/sub/b.bin"), Some(&Node::File(3)));
    assert_eq!(fs.nodes.get("/src/a.txt"), Some(&Node::File(10)));
}

#[test]
fn copying_with_progress_reports_every_operation_once_and_at_the_end() {
    let mut fs = sample_tree();
    let (result, reports) = run_copy(
        &mut fs,
        copy_directory_with_progress("/src".to_string(), "/dst".to_string(), DirectoryCopyWithProgressOptions::default()),
    );
    let finished = result.unwrap();
    assert_eq!(finished.files_copied, 2);
    assert_eq!(finished.directories_created, 2);
    let indices: Vec<usize> = reports.iter().map(|r| r.0).collect();
    assert_eq!(indices, vec![0, 1, 2, 3, 3]);
    assert_eq!(reports.last().unwrap().1, finished.total_bytes_copied);
}

#[test]
fn a_destination_inside_the_source_is_refused() {
    let mut fs = sample_tree();
    let (result, _) = run_copy(
        &mut fs,
        copy_directory("/src".to_string(), "/src/sub/inner".to_string(), DirectoryCopyOptions::default()),
    );
    match result {
        Err(CopyDirectoryError::PreparationError(CopyDirectoryPreparationError::DestinationDirectoryValidationError(
            DestinationDirectoryPathValidationError::DescendantOfSourceDirectory { destination_directory_path, source_directory_path },
        ))) => {
            assert_eq!(destination_directory_path, "/src/sub/inner");
            assert_eq!(source_directory_path, "/src");
        },
        other => panic!("unexpected result {:?}", other),
    }
}

#[test]
fn a_missing_source_directory_is_refused() {
    let mut fs = sample_tree();
    let (result, _) = run_copy(&mut fs, copy_directory("/nothing".to_string(), "/dst".to_string(), DirectoryCopyOptions::default()));
    assert!(matches!(
        result,
        Err(CopyDirectoryError::PreparationError(CopyDirectoryPreparationError::SourceDirectoryValidationError(
            SourceDirectoryPathValidationError::NotFound { .. }
        )))
    ));
}

#[test]
fn a_non_empty_destination_is_refused_by_default() {
    let mut fs = sample_tree();
    fs.nodes.insert("/dst".to_string(), Node::Directory);
    fs.nodes.insert("/dst/x".to_string(), Node::File(1));
    let (result, _) = run_copy(&mut fs, copy_directory("/src".to_string(), "/dst".to_string(), DirectoryCopyOptions::default()));
    assert!(matches!(
        result,
        Err(CopyDirectoryError::PreparationError(CopyDirectoryPreparationError::DestinationDirectoryValidationError(
            DestinationDirectoryPathValidationError::NotEmpty { .. }
        )))
    ));
}

#[test]
fn an_existing_destination_is_refused_when_disallowed() {
    let mut fs = sample_tree();
    fs.nodes.insert("/dst".to_string(), Node::Directory);
    let options = DirectoryCopyOptions { destination_directory_rule: DestinationDirectoryRule::DisallowExisting, ..Default::default() };
    let (result, _) = run_copy(&mut fs, copy_directory("/src".to_string(), "/dst".to_string(), options));
    assert!(matches!(
        result,
        Err(CopyDirectoryError::PreparationError(CopyDirectoryPreparationError::DestinationDirectoryValidationError(
            DestinationDirectoryPathValidationError::AlreadyExists { .. }
        )))
    ));
}

#[test]
fn colliding_files_are_caught_before_anything_is_copied() {
    let mut fs = sample_tree();
    fs.nodes.insert("/dst".to_string(), Node::Directory);
    fs.nodes.insert("/dst/sub".to_string(), Node::Directory);
    fs.nodes.insert("/dst/sub/b.bin".to_string(), Node::File(99));
    let options = DirectoryCopyOptions {
        destination_directory_rule: DestinationDirectoryRule::AllowNonEmpty {
            colliding_file_behaviour: CollidingFileBehaviour::Abort,
            colliding_subdirectory_behaviour: CollidingSubDirectoryBehaviour::Continue,
        },
        ..Default::default()
    };
    let (result, _) = run_copy(&mut fs, copy_directory("/src".to_string(), "/dst".to_string(), options));
    match result {
        Err(CopyDirectoryError::PreparationError(CopyDirectoryPreparationError::CopyPlanningError(
            DirectoryExecutionPlanError::DestinationItemAlreadyExists { path },
        ))) => assert_eq!(path, "/dst/sub/b.bin"),
        other => panic!("unexpected result {:?}", other),
    }
    assert_eq!(fs.nodes.get("/dst/a.txt"), None);
}

#[test]
fn colliding_files_are_overwritten_when_allowed() {
    let mut fs = sample_tree();
    fs.nodes.insert("/dst".to_string(), Node::Directory);
    fs.nodes.insert("/dst/sub".to_string(), Node::Directory);
    fs.nodes.insert("/dst/sub/b.bin".to_string(), Node::File(99));
    let options = DirectoryCopyOptions {
        destination_directory_rule: DestinationDirectoryRule::AllowNonEmpty {
            colliding_file_behaviour: CollidingFileBehaviour::Overwrite,
            colliding_subdirectory_behaviour: CollidingSubDirectoryBehaviour::Continue,
        },
        ..Default::default()
    };
    let (result, _) = run_copy(&mut fs, copy_directory("/src".to_string(), "/dst".to_string(), options));
    let finished = result.unwrap();
    assert_eq!(finished.files_copied, 2);
    assert_eq!(finished.directories_created, 0);
    assert_eq!(fs.nodes.get("/dst/sub/b.bin"), Some(&Node::File(3)));
}

#[test]
fn the_depth_limit_leaves_deeper_contents_out() {
    let mut fs = sample_tree();
    let options = DirectoryCopyOptions { copy_depth_limit: DirectoryCopyDepthLimit::Limited { maximum_depth: 0 }, ..Default::default() };
    let (result, _) = run_copy(&mut fs, copy_directory("/src".to_string(), "/dst".to_string(), options));
    let finished = result.unwrap();
    assert_eq!(finished.files_copied, 1);
    assert_eq!(finished.directories_created, 2);
    assert_eq!(fs.nodes.get("/dst/sub"), Some(&Node::Directory));
    assert_eq!(fs.nodes.get("/dst/sub/b.bin"), None);
}

#[test]
fn symbolic_links_are_kept_or_followed() {
    let mut fs = sample_tree();
    fs.nodes.insert("/src/link".to_string(), Node::Link("/src/a.txt".to_string()));
    let (result, _) = run_copy(&mut fs, copy_directory("/src".to_string(), "/dst".to_string(), DirectoryCopyOptions::default()));
    assert_eq!(result.unwrap().symlinks_created, 1);
    assert_eq!(fs.nodes.get("/dst/link"), Some(&Node::Link("/src/a.txt".to_string())));

    let mut fs = sample_tree();
    fs.nodes.insert("/src/link".to_string(), Node::Link("/src/a.txt".to_string()));
    let options = DirectoryCopyOptions { symlink_behaviour: SymlinkBehaviour::Follow, ..Default::default() };
    let (result, _) = run_copy(&mut fs, copy_directory("/src".to_string(), "/dst".to_string(), options));
    let finished = result.unwrap();
    assert_eq!(finished.symlinks_created, 0);
    assert_eq!(finished.files_copied, 3);
    assert_eq!(fs.nodes.get("/dst/link"), Some(&Node::File(10)));
}

#[test]
fn broken_symbolic_links_abort_when_asked_to() {
    let mut fs = sample_tree();
    fs.nodes.insert("/src/broken".to_string(), Node::Link("/nowhere".to_string()));
    let options = DirectoryCopyOptions { broken_symlink_behaviour: BrokenSymlinkBehaviour::Abort, ..Default::default() };
    let (result, _) = run_copy(&mut fs, copy_directory("/src".to_string(), "/dst".to_string(), options));
    match result {
        Err(CopyDirectoryError::PreparationError(CopyDirectoryPreparationError::CopyPlanningError(
            DirectoryExecutionPlanError::SymbolicLinkIsBroken { path },
        ))) => assert_eq!(path, "/src/broken"),
        other => panic!("unexpected result {:?}", other),
    }

    let mut fs = sample_tree();
    fs.nodes.insert("/src/broken".to_string(), Node::Link("/nowhere".to_string()));
    let (result, _) = run_copy(&mut fs, copy_directory("/src".to_string(), "/dst".to_string(), DirectoryCopyOptions::default()));
    assert_eq!(result.unwrap().symlinks_created, 1);
    assert_eq!(fs.nodes.get("/dst/broken"), Some(&Node::Link("/nowhere".to_string())));
}

#[test]
fn an_entry_that_appeared_after_preparation_is_unexpected() {
    let mut fs = sample_tree();
    let (mut copy, mut request) = copy_directory("/src".to_string(), "/dst".to_string(), DirectoryCopyOptions::default());
    let mut sneaked = false;
    let result = loop {
        if !sneaked {
            if let FsRequest::CreateDirectoryAll { .. } = &request {
                fs.nodes.insert("/dst/a.txt".to_string(), Node::Directory);
                sneaked = true;
            }
        }
        let response = fs.perform(request);
        match copy.resume(response).1 {
            MachineStep::Perform(next) => request = next,
            MachineStep::Finished(result) => break result,
        }
    };
    match result {
        Err(CopyDirectoryError::ExecutionError(CopyDirectoryExecutionError::DestinationEntryUnexpected { path })) => {
            assert_eq!(path, "/dst/a.txt")
        },
        other => panic!("unexpected result {:?}", other),
    }
}

#[test]
fn a_directory_is_moved_by_rename_when_possible() {
    let mut fs = sample_tree();
    let (result, reports) = run_move(&mut fs, move_directory("/src".to_string(), "/dst".to_string(), DirectoryMoveOptions::default()));
    let finished = result.unwrap();
    assert_eq!(
        finished,
        DirectoryMoveFinished {
            total_bytes_moved: 4096 + 10 + 4096 + 3,
            files_moved: 2,
            symlinks_moved: 0,
            directories_moved: 2,
            strategy_used: DirectoryMoveStrategy::Rename,
        }
    );
    assert!(reports.is_empty());
    assert_eq!(fs.nodes.get("/src"), None);
    assert_eq!(fs.nodes.get("/dst/sub/b.bin"), Some(&Node::File(3)));
}

#[test]
fn a_move_falls_back_on_copy_and_delete() {
    let mut fs = sample_tree();
    fs.renames_fail = true;
    let (result, reports) = run_move(
        &mut fs,
        move_directory_with_progress("/src".to_string(), "/dst".to_string(), DirectoryMoveWithProgressOptions::default()),
    );
    let finished = result.unwrap();
    assert_eq!(finished.strategy_used, DirectoryMoveStrategy::CopyAndDelete);
    assert_eq!(finished.files_moved, 2);
    assert_eq!(finished.directories_moved, 2);
    assert_eq!(fs.nodes.get("/src"), None);
    assert_eq!(fs.nodes.get("/dst/a.txt"), Some(&Node::File(10)));
    assert!(!reports.is_empty());
    assert!(matches!(reports[0].current_operation, DirectoryMoveOperation::CreatingDirectory { .. }));
}

#[test]
fn a_move_restricted_to_renaming_fails_when_the_rename_fails() {
    let mut fs = sample_tree();
    fs.renames_fail = true;
    let options = DirectoryMoveOptions { allowed_strategies: DirectoryMoveAllowedStrategies::OnlyRename, ..Default::default() };
    let (result, _) = run_move(&mut fs, move_directory("/src".to_string(), "/dst".to_string(), options));
    assert!(matches!(
        result,
        Err(MoveDirectoryError::ExecutionError(MoveDirectoryExecutionError::RenameFailedAndNoFallbackStrategy))
    ));
    assert_eq!(fs.nodes.get("/src/a.txt"), Some(&Node::File(10)));
}

#[test]
fn a_move_restricted_to_copying_copies_and_deletes() {
    let mut fs = sample_tree();
    let options = DirectoryMoveOptions {
        allowed_strategies: DirectoryMoveAllowedStrategies::OnlyCopyAndDelete { options: DirectoryMoveByCopyOptions::default() },
        ..Default::default()
    };
    let (result, _) = run_move(&mut fs, move_directory("/src".to_string(), "/dst".to_string(), options));
    let finished = result.unwrap();
    assert_eq!(finished.strategy_used, DirectoryMoveStrategy::CopyAndDelete);
    assert_eq!(finished.total_bytes_moved, 4096 + 10 + 4096 + 3);
    assert_eq!(fs.nodes.get("/src"), None);
}

#[test]
fn a_renamed_move_reports_its_end() {
    let mut fs = sample_tree();
    let (result, reports) = run_move(
        &mut fs,
        move_directory_with_progress("/src".to_string(), "/dst".to_string(), DirectoryMoveWithProgressOptions::default()),
    );
    assert_eq!(result.unwrap().strategy_used, DirectoryMoveStrategy::Rename);
    assert_eq!(reports.len(), 1);
    assert_eq!(reports[0].current_operation, DirectoryMoveOperation::RemovingSourceDirectory);
    assert_eq!(reports[0].current_operation_index, 1);
    assert_eq!(reports[0].total_operations, 2);
    assert_eq!(reports[0].bytes_finished, reports[0].bytes_total);
}

fn scan_items(fs: &mut FakeFs, mut scan: BreadthFirstDirectoryIter) -> Vec<Result<(String, ScanEntryDepth), String>> {
    let mut items = Vec::new();
    loop {
        let mut step = scan.advance();
        let item = loop {
            match step {
                MachineStep::Perform(request) => {
                    let response = fs.perform(request);
                    step = scan.resume(response);
                },
                MachineStep::Finished(item) => break item,
            }
        };
        match item {
            None => return items,
            Some(Ok(entry)) => items.push(Ok((entry.path.clone(), entry.depth))),
            Some(Err(e)) => {
                items.push(Err(format!("{:?}", e)));
                return items;
            },
        }
    }
}

#[test]
fn scans_are_breadth_first() {
    let mut fs = sample_tree();
    fs.nodes.insert("/src/sub/deeper".to_string(), Node::Directory);
    fs.nodes.insert("/src/sub/deeper/c".to_string(), Node::File(1));
    let scanner = DirectoryScanner::new("/src".to_string(), DirectoryScanOptionsV2::default());
    let items = scan_items(&mut fs, scanner.into_iter());
    let paths: Vec<String> = items.iter().map(|i| i.clone().unwrap().0).collect();
    assert_eq!(paths, vec!["/src", "/src/a.txt", "/src/sub", "/src/sub/b.bin", "/src/sub/deeper", "/src/sub/deeper/c"]);
    assert_eq!(items[0].clone().unwrap().1, ScanEntryDepth::BaseDirectory);
    assert_eq!(items[5].clone().unwrap().1, ScanEntryDepth::AtDepth { depth: 2 });
}

#[test]
fn scans_respect_their_depth_limit() {
    let mut fs = sample_tree();
    let options = DirectoryScanOptionsV2 {
        yield_base_directory: false,
        maximum_scan_depth: DirectoryScanDepthLimit::Limited { maximum_depth: 0 },
        ..Default::default()
    };
    let items = scan_items(&mut fs, DirectoryScanner::new("/src".to_string(), options).into_iter());
    let paths: Vec<String> = items.iter().map(|i| i.clone().unwrap().0).collect();
    assert_eq!(paths, vec!["/src/a.txt", "/src/sub"]);
}

#[test]
fn followed_link_cycles_are_reported() {
    let mut fs = sample_tree();
    fs.nodes.insert("/src/sub/back".to_string(), Node::Link("/src".to_string()));
    let options = DirectoryScanOptionsV2 { follow_symbolic_links: true, ..Default::default() };
    let items = scan_items(&mut fs, DirectoryScanner::new("/src".to_string(), options).into_iter());
    let last = items.last().unwrap().clone().unwrap_err();
    assert!(last.contains("SymlinkCycleEncountered"), "{}", last);
}

#[test]
fn scanning_a_file_is_no_directory_scan() {
    let mut fs = sample_tree();
    let items = scan_items(&mut fs, DirectoryScanner::new("/src/a.txt".to_string(), DirectoryScanOptionsV2::default()).into_iter());
    assert_eq!(items.len(), 1);
    assert!(items[0].clone().unwrap_err().contains("NotADirectory"));
}

#[test]
fn directory_sizes_sum_every_entry() {
    let mut fs = sample_tree();
    let (mut size_scan, mut step) = directory_size_in_bytes("/src".to_string());
    let size = loop {
        match step {
            MachineStep::Perform(request) => {
                let response = fs.perform(request);
                step = size_scan.resume(response);
            },
            MachineStep::Finished(result) => break result.unwrap(),
        }
    };
    assert_eq!(size, 4096 + 10 + 4096 + 3);
}

fn emptiness(fs: &mut FakeFs, path: &str) -> Result<bool, DirectoryEmptinessScanError> {
    let (mut check, mut request) = is_directory_empty(path.to_string());
    loop {
        let response = fs.perform(request);
        match check.resume(response) {
            MachineStep::Perform(next) => request = next,
            MachineStep::Finished(result) => return result,
        }
    }
}

#[test]
fn emptiness_checks() {
    let mut fs = sample_tree();
    fs.nodes.insert("/empty".to_string(), Node::Directory);
    assert_eq!(emptiness(&mut fs, "/empty").unwrap(), true);
    assert_eq!(emptiness(&mut fs, "/src").unwrap(), false);
    assert!(matches!(emptiness(&mut fs, "/missing"), Err(DirectoryEmptinessScanError::NotFound { .. })));
    assert!(matches!(emptiness(&mut fs, "/src/a.txt"), Err(DirectoryEmptinessScanError::NotADirectory { .. })));
}

fn full_scan(fs: &mut FakeFs, path: &str, options: DirectoryScanOptions) -> Result<DirectoryScan, DirectoryScanError> {
    let (mut scan, mut request) = DirectoryScan::scan_with_options(path.to_string(), options);
    loop {
        let response = fs.perform(request);
        match scan.resume(response) {
            MachineStep::Perform(next) => request = next,
            MachineStep::Finished(Ok(())) => return Ok(scan.into_scan()),
            MachineStep::Finished(Err(e)) => return Err(e),
        }
    }
}

#[test]
fn complete_scans_list_files_and_directories() {
    let mut fs = sample_tree();
    let scan = full_scan(&mut fs, "/src", DirectoryScanOptions::default()).unwrap();
    assert_eq!(scan.files(), &["/src/a.txt".to_string(), "/src/sub/b.bin".to_string()][..]);
    assert_eq!(scan.directories(), &["/src/sub".to_string()][..]);
    assert!(scan.covers_entire_directory_tree());

    let (mut size_query, mut step) = scan.total_size_in_bytes();
    let total = loop {
        match step {
            MachineStep::Perform(request) => {
                let response = fs.perform(request);
                step = size_query.resume(response);
            },
            MachineStep::Finished(result) => break result.unwrap(),
        }
    };
    assert_eq!(total, 10 + 3 + 4096);
    let both = scan.into_scanned_files_and_directories();
    assert_eq!(both.directories, vec!["/src/sub".to_string()]);
}

#[test]
fn complete_scans_note_what_the_depth_limit_leaves_out() {
    let mut fs = sample_tree();
    let options = DirectoryScanOptions { maximum_scan_depth: DirectoryScanDepthLimit::Limited { maximum_depth: 0 }, ..Default::default() };
    let scan = full_scan(&mut fs, "/src", options).unwrap();
    assert!(!scan.covers_entire_directory_tree());
    assert_eq!(scan.into_files(), vec!["/src/a.txt".to_string()]);
}

#[test]
fn complete_scans_of_missing_paths_fail() {
    let mut fs = sample_tree();
    assert!(matches!(full_scan(&mut fs, "/nothing", DirectoryScanOptions::default()), Err(DirectoryScanError::NotFound { .. })));
}

fn per_directory_scan_items(fs: &mut FakeFs, mut scan: DirectoryScannerPerDirectoryIter) -> Vec<Result<(String, ScanEntryDepth), String>> {
    let mut items = Vec::new();
    loop {
        let mut step = scan.advance();
        let item = loop {
            match step {
                MachineStep::Perform(request) => {
                    let response = fs.perform(request);
                    step = scan.resume(response);
                },
                MachineStep::Finished(item) => break item,
            }
        };
        match item {
            None => return items,
            Some(Ok(entry)) => items.push(Ok((entry.path.clone(), entry.depth))),
            Some(Err(e)) => {
                items.push(Err(format!("{:?}", e)));
                return items;
            },
        }
    }
}

#[test]
fn per_directory_scans_walk_the_tree_breadth_first() {
    let mut fs = sample_tree();
    fs.nodes.insert("/src/sub/deeper".to_string(), Node::Directory);
    fs.nodes.insert("/src/sub/deeper/c".to_string(), Node::File(1));
    let scan = DirectoryScannerPerDirectoryIter::new("/src".to_string(), DirectoryScanOptionsV2::default());
    let items = per_directory_scan_items(&mut fs, scan);
    let paths: Vec<String> = items.iter().map(|i| i.clone().unwrap().0).collect();
    assert_eq!(paths, vec!["/src", "/src/a.txt", "/src/sub", "/src/sub/b.bin", "/src/sub/deeper", "/src/sub/deeper/c"]);
}

#[test]
fn per_directory_scans_do_not_look_out_for_link_cycles() {
    let mut fs = sample_tree();
    fs.nodes.insert("/src/sub/back".to_string(), Node::Link("/src".to_string()));
    let options = DirectoryScanOptionsV2 {
        follow_symbolic_links: true,
        maximum_scan_depth: DirectoryScanDepthLimit::Limited { maximum_depth: 1 },
        ..Default::default()
    };
    let items = per_directory_scan_items(&mut fs, DirectoryScannerPerDirectoryIter::new("/src".to_string(), options));
    assert!(items.iter().all(|i| i.is_ok()), "{:?}", items);
    assert!(items.contains(&Ok(("/src".to_string(), ScanEntryDepth::AtDepth { depth: 1 }))), "{:?}", items);
}

#[test]
fn a_copy_writes_in_the_order_of_its_plan() {
    let mut fs = sample_tree();
    fs.nodes.insert("/src/sub/deeper".to_string(), Node::Directory);
    fs.nodes.insert("/src/sub/deeper/c".to_string(), Node::File(1));
    let (mut copy, mut request) = copy_directory("/src".to_string(), "/dst".to_string(), DirectoryCopyOptions::default());
    let mut writes = Vec::new();
    let result = loop {
        match &request {
            FsRequest::CreateDirectory { path } | FsRequest::CreateDirectoryAll { path } => writes.push(path.clone()),
            FsRequest::CopyFile { destination_path, .. } => writes.push(destination_path.clone()),
            _ => {},
        }
        let response = fs.perform(request);
        let (_, step) = copy.resume(response);
        match step {
            MachineStep::Perform(next) => request = next,
            MachineStep::Finished(result) => break result,
        }
    };
    assert!(result.is_ok());
    // Every directory is created before anything is written into it, and nothing is written twice.
    for (i, path) in writes.iter().enumerate() {
        let parent = parent_of(path);
        if parent != "/" {
            assert!(writes[..i].contains(&parent), "{} written before its parent: {:?}", path, writes);
        }
        assert!(!writes[..i].contains(path), "{} written twice: {:?}", path, writes);
    }
    assert_eq!(writes.len(), 6);
}

#[test]
fn scan_depths_are_ordered_from_the_base_directory_down() {
    assert_eq!(ScanEntryDepth::BaseDirectory.partial_cmp(&ScanEntryDepth::BaseDirectory), Some(std::cmp::Ordering::Equal));
    assert!(ScanEntryDepth::BaseDirectory < ScanEntryDepth::AtDepth { depth: 0 });
    assert!(ScanEntryDepth::AtDepth { depth: 3 } > ScanEntryDepth::AtDepth { depth: 2 });
    assert!(ScanEntryDepth::AtDepth { depth: 0 } > ScanEntryDepth::BaseDirectory);
    assert_eq!(
        ScanEntryDepth::AtDepth { depth: 5 }.partial_cmp(&ScanEntryDepth::AtDepth { depth: 5 }),
        Some(std::cmp::Ordering::Equal)
    );
}

#[test]
fn broken_symbolic_links_always_fail_when_links_are_followed() {
    let mut fs = sample_tree();
    fs.nodes.insert("/src/broken".to_string(), Node::Link("/nowhere".to_string()));
    let options = DirectoryCopyOptions {
        symlink_behaviour: SymlinkBehaviour::Follow,
        broken_symlink_behaviour: BrokenSymlinkBehaviour::Keep,
        ..Default::default()
    };
    let (result, _) = run_copy(&mut fs, copy_directory("/src".to_string(), "/dst".to_string(), options));
    match result {
        Err(CopyDirectoryError::PreparationError(CopyDirectoryPreparationError::CopyPlanningError(
            DirectoryExecutionPlanError::UnableToAccess { path, error },
        ))) => {
            assert_eq!(path, "/nowhere");
            assert_eq!(error.kind(), io::ErrorKind::NotFound);
        },
        other => panic!("unexpected result {:?}", other),
    }
    assert_eq!(fs.nodes.get("/dst"), None);

    let mut fs = sample_tree();
    fs.nodes.insert("/src/broken".to_string(), Node::Link("/nowhere".to_string()));
    let options = DirectoryCopyOptions {
        symlink_behaviour: SymlinkBehaviour::Follow,
        broken_symlink_behaviour: BrokenSymlinkBehaviour::Abort,
        ..Default::default()
    };
    let (result, _) = run_copy(&mut fs, copy_directory("/src".to_string(), "/dst".to_string(), options));
    match result {
        Err(CopyDirectoryError::PreparationError(CopyDirectoryPreparationError::CopyPlanningError(
            DirectoryExecutionPlanError::SymbolicLinkIsBroken { path },
        ))) => assert_eq!(path, "/src/broken"),
        other => panic!("unexpected result {:?}", other),
    }
    assert_eq!(fs.nodes.get("/dst"), None);
}

#[test]
fn the_destination_root_is_created_first_and_outside_the_plan() {
    let mut fs = sample_tree();
    let (mut copy, first) = copy_directory("/src".to_string(), "/dst".to_string(), DirectoryCopyOptions::default());
    let mut request = first;
    let mut first_write = None;
    loop {
        match &request {
            FsRequest::CreateDirectory { path } | FsRequest::CreateDirectoryAll { path } | FsRequest::CopyFile { destination_path: path, .. } => {
                if first_write.is_none() {
                    first_write = Some((matches!(request, FsRequest::CreateDirectoryAll { .. }), path.clone()));
                }
            },
            _ => {},
        }
        let response = fs.perform(request);
        match copy.resume(response).1 {
            MachineStep::Perform(next) => request = next,
            MachineStep::Finished(result) => {
                assert_eq!(result.unwrap().directories_created, 2);
                break;
            },
        }
    }
    assert_eq!(first_write, Some((true, "/dst".to_string())));
}

#[test]
fn copy_with_progress_defaults_keep_broken_links() {
    let options = DirectoryCopyWithProgressOptions::default();
    assert_eq!(options.broken_symlink_behaviour, BrokenSymlinkBehaviour::Keep);
    assert_eq!(options.symlink_behaviour, SymlinkBehaviour::Keep);
}

#[test]
fn a_move_by_copy_reports_the_source_removal_last() {
    let mut fs = sample_tree();
    fs.renames_fail = true;
    let (result, reports) = run_move(
        &mut fs,
        move_directory_with_progress("/src".to_string(), "/dst".to_string(), DirectoryMoveWithProgressOptions::default()),
    );
    assert!(result.is_ok());
    let last = reports.last().unwrap();
    assert_eq!(last.current_operation, DirectoryMoveOperation::RemovingSourceDirectory);
    assert_eq!(last.current_operation_index, last.total_operations - 1);
    assert!(reports.iter().all(|r| r.total_operations == last.total_operations));
}

#[test]
fn empty_directories_at_the_depth_limit_leave_nothing_out() {
    let mut fs = sample_tree();
    fs.nodes.remove("/src/sub/b.bin");
    let options = DirectoryScanOptions { maximum_scan_depth: DirectoryScanDepthLimit::Limited { maximum_depth: 0 }, ..Default::default() };
    let scan = full_scan(&mut fs, "/src", options).unwrap();
    assert!(scan.covers_entire_directory_tree());
    assert_eq!(scan.directories(), &["/src/sub".to_string()][..]);
}

#[test]
fn a_base_link_is_not_followed_unless_asked_to() {
    let mut fs = sample_tree();
    fs.nodes.insert("/link".to_string(), Node::Link("/src".to_string()));
    let items = scan_items(&mut fs, DirectoryScanner::new("/link".to_string(), DirectoryScanOptionsV2::default()).into_iter());
    assert_eq!(items, vec![Ok(("/link".to_string(), ScanEntryDepth::BaseDirectory))]);

    let options = DirectoryScanOptionsV2 { follow_base_directory_symbolic_link: true, ..Default::default() };
    let items = scan_items(&mut fs, DirectoryScanner::new("/link".to_string(), options).into_iter());
    assert_eq!(items[0], Ok(("/src".to_string(), ScanEntryDepth::BaseDirectory)));
    assert_eq!(items.len(), 4);
}

#[test]
fn a_scan_that_yielded_nothing_stays_over() {
    let mut fs = sample_tree();
    fs.nodes.insert("/link".to_string(), Node::Link("/src".to_string()));
    let options = DirectoryScanOptionsV2 { yield_base_directory: false, ..Default::default() };
    let mut scan = DirectoryScanner::new("/link".to_string(), options).into_iter();
    for _ in 0..3 {
        let mut step = scan.advance();
        let item = loop {
            match step {
                MachineStep::Perform(request) => step = scan.resume(fs.perform(request)),
                MachineStep::Finished(item) => break item,
            }
        };
        assert!(item.is_none());
    }
}
