//! The layout stage: a page wrapped in the layout that its data names.

use vstd::prelude::*;
use crate::builder::Renderers;
use crate::error::{BuildError, Failure};
use crate::names::{extension, extension_of, set_extension, with_extension};
use crate::page::{Page, PageView};
use crate::vars::{object_get, scalar_text, value_scalar_text, Entries};

verus! {

/// The key under which the data of a page names its layout.
pub open spec fn layout_key() -> Seq<char> {
    seq!['l', 'a', 'y', 'o', 'u', 't']
}

/// The layout that the data of a page asks for: the text of the scalar
/// under `layout`, where the stage is on and the text is not empty.
pub open spec fn layout_name(data: Entries, renderers: Renderers) -> Option<Seq<char>> {
    if renderers.layout && data.contains_key(layout_key()) {
        match scalar_text(data[layout_key()]) {
            Some(name) => if name.len() > 0 {
                Some(name)
            } else {
                None
            },
            None => None,
        }
    } else {
        None
    }
}

/// The layout that a page asks for, if any. The file of that name in the
/// layout directory is the one to read.
pub fn layout_of(page: &Page, renderers: &Renderers) -> (name: Option<String>)
    ensures
        match name {
            Some(wanted) => layout_name(page@.data, *renderers) == Some(wanted@),
            None => layout_name(page@.data, *renderers) is None,
        },
{
    if !renderers.layout {
        return None;
    }
    proof {
        reveal_strlit("layout");
        assert("layout"@ =~= layout_key());
    }
    match object_get(&page.data, "layout") {
        Some(value) => match value_scalar_text(&value) {
            Some(name) => if name.as_str().is_empty() {
                None
            } else {
                Some(name)
            },
            None => None,
        },
        None => None,
    }
}

/// The path of a page under a layout: the extension of the layout's name
/// takes the place of the page's. A layout without an extension, or with an
/// empty one, leaves the path as it is.
pub open spec fn laid_out_path(path: Seq<char>, layout: Seq<char>) -> Seq<char> {
    match extension(layout) {
        Some(ext) => if ext.len() > 0 {
            with_extension(path, ext)
        } else {
            path
        },
        None => path,
    }
}

/// A page under a layout: the rendered layout as content, the layout's
/// extension as extension. The data stays the page's own.
pub open spec fn laid_out(page: PageView, layout: Seq<char>, text: Seq<char>) -> PageView {
    PageView { path: laid_out_path(page.path, layout), data: page.data, content: text }
}

/// What the layout stage makes of the engine's answer: the page under the
/// layout, or the failure with the page's path and the layout's name.
pub fn apply_layout(page: Page, layout: &str, outcome: Result<String, liquid::Error>) -> (built:
    Result<Page, BuildError>)
    ensures
        match outcome {
            Ok(text) => built matches Ok(out) && out@ == laid_out(page@, layout@, text@),
            Err(cause) => built matches Err(failure) && failure@ == (Failure::Layout {
                page: page@.path,
                layout: layout@,
                cause,
            }),
        },
{
    match outcome {
        Ok(text) => {
            let path = match extension_of(layout) {
                Some(ext) => if ext.as_str().is_empty() {
                    page.path
                } else {
                    set_extension(page.path.as_str(), ext.as_str())
                },
                None => page.path,
            };
            Ok(Page { path, data: page.data, content: text })
        },
        Err(cause) => Err(
            BuildError::Layout { page: page.path, layout: layout.to_owned(), cause },
        ),
    }
}

} // verus!
