//! The schema of filesystem test harness trees.
use vstd::prelude::*;

verus! {

/// How the contents of a harness file are produced.
#[derive(Clone, Debug, PartialEq, Eq)]
pub enum FileDataConfiguration {
    /// An empty file.
    Empty,
    /// A file with the given text.
    Text {
        /// The text.
        content: String,
    },
    /// A file of the given size, filled with deterministic pseudo-random bytes from the seed.
    DeterministicRandom {
        /// The seed.
        seed: u64,
        /// The size of the file in bytes.
        file_size_bytes: usize,
    },
}

/// A file of a harness tree.
#[derive(Clone, Debug, PartialEq, Eq)]
pub struct FileEntry {
    /// The file name.
    pub name: String,
    /// An identifier other entries can refer to.
    pub id: Option<String>,
    /// How the contents are produced (an empty file when absent).
    pub data: Option<FileDataConfiguration>,
}

/// A directory of a harness tree.
#[derive(Debug)]
pub struct DirectoryEntry {
    /// The directory name.
    pub name: String,
    /// An identifier other entries can refer to.
    pub id: Option<String>,
    /// The entries of the directory.
    pub entries: Option<Vec<FileSystemHarnessEntry>>,
}

/// A symbolic link of a harness tree, to another entry of the tree.
#[derive(Clone, Debug, PartialEq, Eq)]
pub struct SymlinkEntry {
    /// The link name.
    pub name: String,
    /// An identifier other entries can refer to.
    pub id: Option<String>,
    /// The identifier of the entry the link points to.
    pub destination_entry_id: String,
}

/// What a broken symbolic link was meant to point to.
#[derive(Clone, Copy, Debug, PartialEq, Eq, Structural)]
pub enum SymlinkDestinationType {
    /// A file.
    File,
    /// A directory.
    Directory,
}

/// A broken symbolic link of a harness tree.
#[derive(Clone, Debug, PartialEq, Eq)]
pub struct BrokenSymlinkEntry {
    /// The link name.
    pub name: String,
    /// An identifier other entries can refer to.
    pub id: Option<String>,
    /// Where the link points, relative to the link.
    pub destination_relative_path: String,
    /// What the link was meant to point to.
    pub destination_type: SymlinkDestinationType,
}

/// An entry of a harness tree.
#[derive(Debug)]
pub enum FileSystemHarnessEntry {
    /// A file.
    File(FileEntry),
    /// A directory.
    Directory(DirectoryEntry),
    /// A symbolic link.
    Symlink(SymlinkEntry),
    /// A broken symbolic link.
    BrokenSymlink(BrokenSymlinkEntry),
}

/// The tree of a harness.
#[derive(Debug)]
pub struct FileSystemHarnessStructure {
    /// The entries at the root of the tree.
    pub entries: Vec<FileSystemHarnessEntry>,
}

/// A harness: its name, the file it is generated into, and its tree.
#[derive(Debug)]
pub struct FileSystemHarnessSchema {
    /// The name of the harness.
    pub name: String,
    /// The file name the harness is generated into.
    pub file_name: String,
    /// A description of the harness.
    pub description: Option<String>,
    /// The tree of the harness.
    pub structure: FileSystemHarnessStructure,
}

} // verus!
