//! Configuration of a site build: the directories, the stages that are
//! switched on, and the variables every page starts with.

use vstd::prelude::*;
use crate::paths::{path_from_text, path_of_text};
use crate::vars::object_entries;

verus! {

/// One site build: where the sources are, where the output goes, and how
/// pages are rendered. Where `fragments` names an extension, the pages of
/// that extension only serve the others and are no output of their own.
#[derive(Clone, Debug)]
pub struct Builder {
    pub input_dir: std::path::PathBuf,
    pub output: std::path::PathBuf,
    pub renderers: Renderers,
    pub default_dirs: Dirs,
    pub default_vars: liquid::Object,
    pub fragments: Option<String>,
}

/// The subdirectories of the input directory that hold data files, layouts
/// and includes.
#[derive(Clone, Debug)]
pub struct Dirs {
    pub data_dir: std::path::PathBuf,
    pub layout_dir: std::path::PathBuf,
    pub include_dir: std::path::PathBuf,
}

/// Which stages of a build are switched on. A stage that is off passes its
/// input through.
#[derive(Clone, Copy, Debug, PartialEq, Eq, Structural)]
pub struct Renderers {
    pub data: bool,
    pub liquid: bool,
    pub sass: bool,
    pub markdown: bool,
    pub sanitizer: bool,
    pub layout: bool,
}

/// The data directory where the configuration names none.
pub fn default_data_dir() -> (dir: std::path::PathBuf)
    ensures
        dir == path_of_text("_data"@),
{
    path_from_text("_data")
}

/// The layout directory where the configuration names none.
pub fn default_layout_dir() -> (dir: std::path::PathBuf)
    ensures
        dir == path_of_text("_layouts"@),
{
    path_from_text("_layouts")
}

/// The include directory where the configuration names none.
pub fn default_include_dir() -> (dir: std::path::PathBuf)
    ensures
        dir == path_of_text("_includes"@),
{
    path_from_text("_includes")
}

impl Default for Dirs {
    fn default() -> (dirs: Self)
        ensures
            dirs.data_dir == path_of_text("_data"@),
            dirs.layout_dir == path_of_text("_layouts"@),
            dirs.include_dir == path_of_text("_includes"@),
    {
        Dirs {
            data_dir: default_data_dir(),
            layout_dir: default_layout_dir(),
            include_dir: default_include_dir(),
        }
    }
}

impl Default for Renderers {
    fn default() -> (renderers: Self)
        ensures
            renderers == (Renderers {
                data: true,
                liquid: true,
                sass: true,
                markdown: true,
                sanitizer: false,
                layout: true,
            }),
    {
        Renderers {
            data: true,
            liquid: true,
            sass: true,
            markdown: true,
            sanitizer: false,
            layout: true,
        }
    }
}

} // verus!
