//! Configuration of a directory copy that runs beside a build.

use vstd::prelude::*;

verus! {

/// A directory whose contents are copied into another.
#[derive(Clone, Debug)]
pub struct Copier {
    pub input_dir: std::path::PathBuf,
    pub output: std::path::PathBuf,
    pub overwrite: bool,
}

/// How a directory is copied.
#[derive(Clone, Copy, Debug, PartialEq, Eq, Structural)]
pub struct CopySettings {
    /// Files that exist in the output are written over.
    pub overwrite: bool,
    /// Files that exist in the output are passed over.
    pub skip_exist: bool,
    /// The size of the buffer a file is copied through.
    pub buffer_size: usize,
    /// The input directory is copied into the output directory.
    pub copy_inside: bool,
    /// The contents of the input directory are copied, not the directory.
    pub content_only: bool,
    /// How deep the copy goes; 0 for all the way down.
    pub depth: u64,
}

/// The settings of a copier: the contents of the input directory go into
/// the output directory, all the way down; what exists there is written
/// over where the copier says so, and passed over where it does not.
pub fn copy_settings(copier: &Copier) -> (settings: CopySettings)
    ensures
        settings == (CopySettings {
            overwrite: copier.overwrite,
            skip_exist: !copier.overwrite,
            buffer_size: 64000,
            copy_inside: true,
            content_only: true,
            depth: 0,
        }),
{
    CopySettings {
        overwrite: copier.overwrite,
        skip_exist: !copier.overwrite,
        buffer_size: 64000,
        copy_inside: true,
        content_only: true,
        depth: 0,
    }
}

} // verus!
