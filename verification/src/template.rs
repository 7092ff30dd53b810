//! The template stage: the registry of partials, and what becomes of a page
//! when the template engine has answered.

use vstd::prelude::*;
use crate::builder::Renderers;
use crate::error::{BuildError, Failure};
use crate::loader::{Source, SourceView};
use crate::names::{file_stem, file_stem_of};
use crate::page::{Page, PageView};

verus! {

#[verifier::external_type_specification]
#[verifier::external_body]
pub struct ExPartials(liquid::partials::InMemorySource);

/// The sources of partials, by name.
pub type Sources = Map<Seq<char>, Seq<char>>;

/// What a registry of partials holds: the source of each partial, by name.
pub uninterp spec fn partial_sources(partials: liquid::partials::InMemorySource) -> Sources;

/// `liquid::partials::InMemorySource::new`: a registry without partials.
#[verifier::external_body]
pub(crate) fn partials_new() -> (out: liquid::partials::InMemorySource)
    ensures
        partial_sources(out) == Sources::empty(),
{
    liquid::partials::InMemorySource::new()
}

/// `liquid::partials::InMemorySource::add`: the name holds the source
/// afterwards, every other name what it held before.
#[verifier::external_body]
pub(crate) fn partials_add(partials: &mut liquid::partials::InMemorySource, name: &str, source: &str)
    ensures
        partial_sources(*final(partials)) == partial_sources(*old(partials)).insert(
            name@,
            source@,
        ),
{
    partials.add(name, source);
}

/// The name under which an include file is registered: the stem of its file
/// name, or the empty name where it has none.
pub open spec fn partial_name(file: Seq<char>) -> Seq<char> {
    match file_stem(file) {
        Some(stem) => stem,
        None => Seq::empty(),
    }
}

/// The source that an include file is registered with: its text, or the
/// empty text where it holds none.
pub open spec fn partial_text(file: SourceView) -> Seq<char> {
    match file.text {
        Some(text) => text,
        None => Seq::empty(),
    }
}

/// The registry that the include files give, each under the stem of its
/// name. Of two files with one stem the later one stays.
pub open spec fn registry_of(files: Seq<SourceView>) -> Sources
    decreases files.len(),
{
    if files.len() == 0 {
        Map::empty()
    } else {
        registry_of(files.drop_last()).insert(
            partial_name(files.last().name),
            partial_text(files.last()),
        )
    }
}

/// Fills the registry of partials from the include files. With templates
/// switched off nothing is registered.
pub fn load_partials(files: &Vec<Source>, renderers: &Renderers) -> (partials:
    liquid::partials::InMemorySource)
    ensures
        partial_sources(partials) == if renderers.liquid {
            registry_of(crate::loader::source_views(files@))
        } else {
            Sources::empty()
        },
{
    let ghost all = crate::loader::source_views(files@);
    let mut partials = partials_new();
    let mut i: usize = 0;
    while renderers.liquid && i < files.len()
        invariant
            i <= files.len(),
            all == crate::loader::source_views(files@),
            renderers.liquid ==> partial_sources(partials) == registry_of(all.take(i as int)),
            !renderers.liquid ==> partial_sources(partials) == Sources::empty(),
        decreases files.len() - i,
    {
        proof {
            assert(all.take(i + 1).drop_last() =~= all.take(i as int));
            assert(all.take(i + 1).last() == files@[i as int]@);
        }
        let file = &files[i];
        proof {
            reveal_strlit("");
            assert(""@ =~= Seq::<char>::empty());
        }
        let text = match &file.text {
            Some(text) => text.as_str(),
            None => "",
        };
        match file_stem_of(file.name.as_str()) {
            Some(stem) => {
                partials_add(&mut partials, stem.as_str(), text);
            },
            None => {
                partials_add(&mut partials, "", text);
            },
        }
        i = i + 1;
    }
    proof {
        assert(all.take(files@.len() as int) =~= all);
    }
    partials
}

/// A page with its content replaced.
pub open spec fn with_content(page: PageView, content: Seq<char>) -> PageView {
    PageView { path: page.path, data: page.data, content }
}

/// What the template stage makes of the engine's answer: the page with the
/// rendered text as its content, or the failure with the page's path.
pub fn apply_template(page: Page, outcome: Result<String, liquid::Error>) -> (built: Result<
    Page,
    BuildError,
>)
    ensures
        match outcome {
            Ok(text) => built matches Ok(out) && out@ == with_content(page@, text@),
            Err(cause) => built matches Err(failure) && failure@ == (Failure::Template {
                page: page@.path,
                cause,
            }),
        },
{
    match outcome {
        Ok(text) => Ok(Page { path: page.path, data: page.data, content: text }),
        Err(cause) => Err(BuildError::Template { page: page.path, cause }),
    }
}

} // verus!
