//! Loading: from the texts of the source files to the site snapshot.

use vstd::prelude::*;
use crate::builder::Renderers;
use crate::frontmatter::{block_of, body_of, has_frontmatter, split_frontmatter, terminator};
use crate::page::{Page, PageView, Site, SiteView};
use crate::vars::{object_entries, object_extend, Entries};

verus! {

#[verifier::external_type_specification]
#[verifier::external_body]
pub struct ExTomlError(toml::de::Error);

/// The entries of the table that a TOML text holds; `None` of a text that is
/// no TOML table.
pub uninterp spec fn toml_entries(text: Seq<char>) -> Option<Entries>;

/// `toml::from_str` into a `liquid::Object`: the table of the text, or the
/// error of a text that does not parse.
#[verifier::external_body]
pub(crate) fn parse_toml(text: &str) -> (parsed: Result<liquid::Object, toml::de::Error>)
    ensures
        match parsed {
            Ok(object) => toml_entries(text@) == Some(object_entries(object)),
            Err(_) => toml_entries(text@) is None,
        },
{
    toml::from_str::<liquid::Object>(text)
}

/// A source file as it was read: its name in the input directory and its
/// text, or no text where what the file holds is none.
#[derive(Clone, Debug)]
pub struct Source {
    pub name: String,
    pub text: Option<String>,
}

/// What a source file holds.
pub struct SourceView {
    pub name: Seq<char>,
    pub text: Option<Seq<char>>,
}

impl View for Source {
    type V = SourceView;

    open spec fn view(&self) -> SourceView {
        SourceView {
            name: self.name@,
            text: match self.text {
                Some(text) => Some(text@),
                None => None,
            },
        }
    }
}

/// The default variables overlaid with those of a frontmatter block. A key
/// of the block wins over the same key of the defaults. A block that did not
/// parse overlays nothing.
pub open spec fn merged_vars(defaults: Entries, block: Option<Entries>) -> Entries {
    match block {
        Some(own) => defaults.union_prefer_right(own),
        None => defaults,
    }
}

/// The page that a source file gives, or `None` where the file is a plain
/// file. With templates switched off every file is a page: its whole text is
/// the content. With templates on, a file is a page where it has
/// frontmatter: the block overlays the defaults, the body is the content.
pub open spec fn loaded_page(
    name: Seq<char>,
    text: Seq<char>,
    defaults: Entries,
    templates: bool,
) -> Option<PageView> {
    if !templates {
        Some(PageView { path: name, data: defaults, content: text })
    } else if has_frontmatter(text) {
        Some(
            PageView {
                path: name,
                data: merged_vars(defaults, toml_entries(block_of(text, terminator()))),
                content: body_of(text, terminator()),
            },
        )
    } else {
        None
    }
}

/// The page that a source file gives. A file that holds no text is a plain
/// file, whatever is switched on.
pub open spec fn source_page(source: SourceView, defaults: Entries, templates: bool) -> Option<
    PageView,
> {
    match source.text {
        Some(text) => loaded_page(source.name, text, defaults, templates),
        None => None,
    }
}

/// The pages of the source files, in the order of the files.
pub open spec fn loaded_pages(sources: Seq<SourceView>, defaults: Entries, templates: bool) -> Seq<
    PageView,
>
    decreases sources.len(),
{
    if sources.len() == 0 {
        Seq::empty()
    } else {
        let before = loaded_pages(sources.drop_last(), defaults, templates);
        match source_page(sources.last(), defaults, templates) {
            Some(page) => before.push(page),
            None => before,
        }
    }
}

/// The names of the source files that are no pages, in the order of the
/// files.
pub open spec fn plain_files(sources: Seq<SourceView>, defaults: Entries, templates: bool) -> Seq<
    Seq<char>,
>
    decreases sources.len(),
{
    if sources.len() == 0 {
        Seq::empty()
    } else {
        let before = plain_files(sources.drop_last(), defaults, templates);
        match source_page(sources.last(), defaults, templates) {
            Some(_) => before,
            None => before.push(sources.last().name),
        }
    }
}

/// The record that the text of a data file gives; `None` where the text
/// does not parse.
pub open spec fn data_record(text: Seq<char>) -> Option<Entries> {
    toml_entries(text)
}

/// The records of the data files that parse, in the order of the files;
/// none where data files are switched off.
pub open spec fn loaded_data(texts: Seq<Seq<char>>, enabled: bool) -> Seq<Entries>
    decreases texts.len(),
{
    if !enabled || texts.len() == 0 {
        Seq::empty()
    } else {
        let before = loaded_data(texts.drop_last(), enabled);
        match data_record(texts.last()) {
            Some(record) => before.push(record),
            None => before,
        }
    }
}

/// The snapshot that the sources give.
pub open spec fn loaded_site(
    sources: Seq<SourceView>,
    data_texts: Seq<Seq<char>>,
    defaults: Entries,
    renderers: Renderers,
) -> SiteView {
    SiteView {
        pages: loaded_pages(sources, defaults, renderers.liquid),
        files: plain_files(sources, defaults, renderers.liquid),
        data: loaded_data(data_texts, renderers.data),
    }
}

/// Loads the record of one data file from its text. A text that does not
/// parse gives no record.
pub fn read_data(text: &str) -> (record: Option<liquid::Object>)
    ensures
        match record {
            Some(object) => data_record(text@) == Some(object_entries(object)),
            None => data_record(text@) is None,
        },
{
    match parse_toml(text) {
        Ok(object) => Some(object),
        Err(_) => None,
    }
}

/// Loads one source file: the page it gives, or `None` where it is a plain
/// file.
pub fn create_page(name: &str, text: &str, defaults: &liquid::Object, renderers: &Renderers) -> (page:
    Option<Page>)
    ensures
        match page {
            Some(loaded) => loaded_page(name@, text@, object_entries(*defaults), renderers.liquid)
                == Some(loaded@),
            None => loaded_page(name@, text@, object_entries(*defaults), renderers.liquid) is None,
        },
{
    if !renderers.liquid {
        return Some(Page { path: name.to_owned(), data: defaults.clone(), content: text.to_owned() });
    }
    match split_frontmatter(text) {
        None => None,
        Some(parts) => {
            let mut data = defaults.clone();
            match parse_toml(parts.block.as_str()) {
                Ok(own) => {
                    object_extend(&mut data, own);
                },
                Err(_) => {},
            }
            Some(Page { path: name.to_owned(), data, content: parts.body })
        },
    }
}

/// The views of source files.
pub open spec fn source_views(sources: Seq<Source>) -> Seq<SourceView> {
    Seq::new(sources.len(), |i: int| sources[i]@)
}

/// The views of texts.
pub open spec fn text_views(texts: Seq<String>) -> Seq<Seq<char>> {
    Seq::new(texts.len(), |i: int| texts[i]@)
}

/// Loads the snapshot: the pages and plain files of the sources, and the
/// records of the data files, each in the order given.
pub fn load_site(
    sources: &Vec<Source>,
    data_texts: &Vec<String>,
    defaults: &liquid::Object,
    renderers: &Renderers,
) -> (site: Site)
    ensures
        site@ == loaded_site(
            source_views(sources@),
            text_views(data_texts@),
            object_entries(*defaults),
            *renderers,
        ),
{
    let ghost all = source_views(sources@);
    let ghost base = object_entries(*defaults);
    let mut pages: Vec<Page> = Vec::new();
    let mut files: Vec<String> = Vec::new();
    let mut i: usize = 0;
    while i < sources.len()
        invariant
            i <= sources.len(),
            all == source_views(sources@),
            base == object_entries(*defaults),
            Seq::new(pages@.len(), |k: int| pages@[k]@) =~= loaded_pages(
                all.take(i as int),
                base,
                renderers.liquid,
            ),
            Seq::new(files@.len(), |k: int| files@[k]@) =~= plain_files(
                all.take(i as int),
                base,
                renderers.liquid,
            ),
        decreases sources.len() - i,
    {
        let source = &sources[i];
        proof {
            assert(all.take(i + 1).drop_last() =~= all.take(i as int));
            assert(all.take(i + 1).last() == source@);
        }
        let loaded = match &source.text {
            Some(text) => create_page(source.name.as_str(), text.as_str(), defaults, renderers),
            None => None,
        };
        match loaded {
            Some(page) => {
                pages.push(page);
            },
            None => {
                files.push(source.name.clone());
            },
        }
        i = i + 1;
    }
    let ghost texts = text_views(data_texts@);
    let mut data: Vec<liquid::Object> = Vec::new();
    let mut j: usize = 0;
    while renderers.data && j < data_texts.len()
        invariant
            j <= data_texts.len(),
            texts == text_views(data_texts@),
            renderers.data ==> Seq::new(data@.len(), |k: int| object_entries(data@[k]))
                =~= loaded_data(texts.take(j as int), true),
            !renderers.data ==> data@.len() == 0,
        decreases data_texts.len() - j,
    {
        proof {
            assert(texts.take(j + 1).drop_last() =~= texts.take(j as int));
            assert(texts.take(j + 1).last() == data_texts@[j as int]@);
        }
        match read_data(data_texts[j].as_str()) {
            Some(record) => {
                data.push(record);
            },
            None => {},
        }
        j = j + 1;
    }
    proof {
        assert(all.take(sources@.len() as int) =~= all);
        assert(texts.take(data_texts@.len() as int) =~= texts);
    }
    let site = Site { pages, files, data };
    proof {
        let want = loaded_site(all, texts, base, *renderers);
        assert(site@.pages =~= want.pages);
        assert(site@.files =~= want.files);
        assert(site@.data =~= want.data);
    }
    site
}

} // verus!
