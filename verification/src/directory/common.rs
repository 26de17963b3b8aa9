//! Rules shared by directory copies and moves.
use vstd::prelude::*;

use crate::error::SourceSubPathNotUnderBaseSourceDirectory;
use crate::file::CollidingFileBehaviour;
use crate::path::{
    join_paths, path_join, path_strip_prefix, paths_are_equal, paths_equal, strip_path_prefix,
};

verus! {

/// How existing sub-directories inside the destination of a directory copy or move
/// are handled when they collide with the ones being copied or moved there.
#[derive(Clone, Copy, PartialEq, Eq, Debug, Hash, Structural)]
pub enum CollidingSubDirectoryBehaviour {
    /// An existing (colliding) destination sub-directory will cause an error.
    Abort,
    /// An existing (colliding) destination sub-directory will have no effect.
    Continue,
}

/// Whether the destination directory may exist before copying or moving into it,
/// whether it must be empty, and how to handle existing entries inside it.
#[derive(Clone, Copy, PartialEq, Eq, Debug, Structural)]
pub enum DestinationDirectoryRule {
    /// The destination directory must not exist.
    DisallowExisting,
    /// The destination directory may exist, but must be empty. This is the default.
    AllowEmpty,
    /// The destination directory may exist and have content.
    AllowNonEmpty {
        /// How to behave for destination files that already exist.
        colliding_file_behaviour: CollidingFileBehaviour,
        /// How to behave for destination sub-directories that already exist.
        colliding_subdirectory_behaviour: CollidingSubDirectoryBehaviour,
    },
}

impl Default for DestinationDirectoryRule {
    /// The default rule is [`DestinationDirectoryRule::AllowEmpty`].
    fn default() -> (r: Self)
        ensures
            r == DestinationDirectoryRule::AllowEmpty,
    {
        Self::AllowEmpty
    }
}

impl DestinationDirectoryRule {
    /// Whether the rule lets existing destination files be overwritten.
    pub open spec fn overwrites_files(self) -> bool {
        self matches DestinationDirectoryRule::AllowNonEmpty {
            colliding_file_behaviour: CollidingFileBehaviour::Overwrite,
            ..
        }
    }

    /// Whether the rule lets destination sub-directories exist already.
    pub open spec fn keeps_existing_subdirectories(self) -> bool {
        self matches DestinationDirectoryRule::AllowNonEmpty {
            colliding_subdirectory_behaviour: CollidingSubDirectoryBehaviour::Continue,
            ..
        }
    }

    /// Whether the rule lets existing destination files be overwritten.
    pub fn allows_overwriting_existing_destination_files(&self) -> (r: bool)
        ensures
            r == self.overwrites_files(),
    {
        match self {
            Self::AllowNonEmpty { colliding_file_behaviour: CollidingFileBehaviour::Overwrite, .. } => true,
            _ => false,
        }
    }

    /// Whether the rule lets destination sub-directories exist already.
    pub fn allows_existing_destination_subdirectories(&self) -> (r: bool)
        ensures
            r == self.keeps_existing_subdirectories(),
    {
        match self {
            Self::AllowNonEmpty {
                colliding_subdirectory_behaviour: CollidingSubDirectoryBehaviour::Continue,
                ..
            } => true,
            _ => false,
        }
    }
}

/// The path of `source_sub_path` relative to `source_base_directory_path`, put onto
/// `target_base_directory_path`; or the error that `source_sub_path` is not under the base.
pub open spec fn rejoined_path(
    source_base_directory_path: Seq<char>,
    source_sub_path: Seq<char>,
    target_base_directory_path: Seq<char>,
) -> Result<Seq<char>, Seq<char>> {
    if paths_equal(source_base_directory_path, source_sub_path) {
        Ok(target_base_directory_path)
    } else {
        match path_strip_prefix(source_sub_path, source_base_directory_path) {
            Some(relative) => Ok(path_join(target_base_directory_path, relative)),
            None => Err(path_join(source_base_directory_path, source_sub_path)),
        }
    }
}

/// Computes the path of `source_sub_path` relative to `source_base_directory_path`,
/// and applies it onto `target_base_directory_path`.
///
/// Returns [`SourceSubPathNotUnderBaseSourceDirectory`] if `source_sub_path`
/// is not a sub-path of `source_base_directory_path`.
pub fn join_relative_source_path_onto_destination(
    source_base_directory_path: &str,
    source_sub_path: &str,
    target_base_directory_path: &str,
) -> (r: Result<String, SourceSubPathNotUnderBaseSourceDirectory>)
    ensures
        match rejoined_path(
            source_base_directory_path@,
            source_sub_path@,
            target_base_directory_path@,
        ) {
            Ok(p) => r matches Ok(s) && s@ == p,
            Err(p) => r matches Err(e) && e.path@ == p,
        },
{
    if paths_are_equal(source_base_directory_path, source_sub_path) {
        return Ok(String::from_str(target_base_directory_path));
    }
    match strip_path_prefix(source_sub_path, source_base_directory_path) {
        Some(relative) => Ok(join_paths(target_base_directory_path, relative.as_str())),
        None => Err(
            SourceSubPathNotUnderBaseSourceDirectory {
                path: join_paths(source_base_directory_path, source_sub_path),
            },
        ),
    }
}

} // verus!
