//! The build of a page: the template, markup, layout and sanitize stages,
//! in that order.
//!
//! Templates are rendered and stylesheets compiled by engines that the
//! caller runs. A build is a state: it says what it asks of an engine, and
//! is taken on with the engine's answer until the page is built or the
//! build has failed.

use vstd::prelude::*;
use crate::builder::Renderers;
use crate::error::{BuildError, Failure};
use crate::layout::{apply_layout, laid_out, laid_out_path, layout_name, layout_of};
use crate::markup::{
    apply_stylesheet, mark_down, marked_down, marked_up, markup_kind, markup_of, markup_path,
    sanitize_page, sanitized, styled, CssStyle, Markup,
};
use crate::names::{extension, extension_of};
use crate::output::page_views;
use crate::page::{globals_of, render_globals, Page, PageView, Site, SiteView};
use crate::template::{apply_template, with_content};
use crate::vars::{object_entries, Entries};

verus! {

/// A layout file as it was read: its name in the layout directory and its
/// text, or no text where it could not be read.
#[derive(Clone, Debug)]
pub struct Layout {
    pub name: String,
    pub text: Option<String>,
}

/// What a layout file holds.
pub struct LayoutView {
    pub name: Seq<char>,
    pub text: Option<Seq<char>>,
}

impl View for Layout {
    type V = LayoutView;

    open spec fn view(&self) -> LayoutView {
        LayoutView {
            name: self.name@,
            text: match self.text {
                Some(text) => Some(text@),
                None => None,
            },
        }
    }
}

/// The views of layout files.
pub open spec fn layout_views(layouts: Seq<Layout>) -> Seq<LayoutView> {
    Seq::new(layouts.len(), |i: int| layouts[i]@)
}

/// The text of the first layout file of the given name; `None` where that
/// file could not be read, or no file has the name.
pub open spec fn layout_text(layouts: Seq<LayoutView>, name: Seq<char>) -> Option<Seq<char>>
    decreases layouts.len(),
{
    if layouts.len() == 0 {
        None
    } else if layouts[0].name == name {
        layouts[0].text
    } else {
        layout_text(layouts.skip(1), name)
    }
}

/// The text of the first layout file of the given name.
pub fn find_layout<'a>(layouts: &'a Vec<Layout>, name: &str) -> (text: Option<&'a str>)
    ensures
        match text {
            Some(found) => layout_text(layout_views(layouts@), name@) == Some(found@),
            None => layout_text(layout_views(layouts@), name@) is None,
        },
{
    let ghost all = layout_views(layouts@);
    let wanted = name.to_owned();
    let mut i: usize = 0;
    assert(all.skip(0) =~= all);
    while i < layouts.len()
        invariant
            i <= layouts.len(),
            all == layout_views(layouts@),
            wanted@ == name@,
            layout_text(all, name@) == layout_text(all.skip(i as int), name@),
        decreases layouts.len() - i,
    {
        proof {
            assert(all.skip(i as int)[0] == layouts@[i as int]@);
            assert(all.skip(i as int).skip(1) =~= all.skip(i + 1));
        }
        if layouts[i].name == wanted {
            return match &layouts[i].text {
                Some(text) => Some(text.as_str()),
                None => None,
            };
        }
        i = i + 1;
    }
    None
}

/// The names of the layouts that the pages ask for, one for each page that
/// asks for one, in the order of the pages.
pub open spec fn layout_names(pages: Seq<PageView>, renderers: Renderers) -> Seq<Seq<char>>
    decreases pages.len(),
{
    if pages.len() == 0 {
        Seq::empty()
    } else {
        let before = layout_names(pages.drop_last(), renderers);
        match layout_name(pages.last().data, renderers) {
            Some(name) => before.push(name),
            None => before,
        }
    }
}

/// The names of the layout files to read before the site is built. The
/// data of a page does not change after loading, so they are known then.
pub fn wanted_layouts(site: &Site, renderers: &Renderers) -> (names: Vec<String>)
    ensures
        Seq::new(names@.len(), |i: int| names@[i]@) == layout_names(site@.pages, *renderers),
{
    let mut names: Vec<String> = Vec::new();
    let mut i: usize = 0;
    while i < site.pages.len()
        invariant
            i <= site.pages.len(),
            Seq::new(names@.len(), |k: int| names@[k]@) =~= layout_names(
                site@.pages.take(i as int),
                *renderers,
            ),
        decreases site.pages.len() - i,
    {
        proof {
            assert(site@.pages.take(i + 1).drop_last() =~= site@.pages.take(i as int));
            assert(site@.pages.take(i + 1).last() == site.pages@[i as int]@);
        }
        match layout_of(&site.pages[i], renderers) {
            Some(name) => {
                names.push(name);
            },
            None => {},
        }
        i = i + 1;
    }
    proof {
        assert(site@.pages.take(site.pages@.len() as int) =~= site@.pages);
    }
    names
}

/// A page on its way through the stages. A build that waits has handed
/// its page to an engine outside and goes on when the engine has answered.
#[derive(Debug)]
pub enum PageBuild {
    /// Waits for the template engine to render the content of the page.
    Templating(Page),
    /// Waits for the stylesheet compiler to compile the content of the page.
    Styling(Page),
    /// Waits for the template engine to render the text of the layout.
    LayingOut { page: Page, layout: String, text: String },
    /// The page is built.
    Done(Page),
    /// The build of the site ends here.
    Failed(BuildError),
}

/// What a build holds.
pub enum BuildState {
    Templating(PageView),
    Styling(PageView),
    LayingOut { page: PageView, layout: Seq<char>, text: Seq<char> },
    Done(PageView),
    Failed(Failure),
}

impl View for PageBuild {
    type V = BuildState;

    open spec fn view(&self) -> BuildState {
        match *self {
            PageBuild::Templating(page) => BuildState::Templating(page@),
            PageBuild::Styling(page) => BuildState::Styling(page@),
            PageBuild::LayingOut { page, layout, text } => BuildState::LayingOut {
                page: page@,
                layout: layout@,
                text: text@,
            },
            PageBuild::Done(page) => BuildState::Done(page@),
            PageBuild::Failed(failure) => BuildState::Failed(failure@),
        }
    }
}

/// What a build asks of an engine.
#[derive(Debug)]
pub enum Request {
    /// Render `template` with the variables `globals` and the partials of
    /// the site.
    Render { template: String, globals: liquid::Object },
    /// Compile the stylesheet `source` and write the CSS in `style`.
    Compile { source: String, style: CssStyle },
}

/// What a request holds.
pub enum RequestView {
    Render { template: Seq<char>, globals: Entries },
    Compile { source: Seq<char>, style: CssStyle },
}

impl View for Request {
    type V = RequestView;

    open spec fn view(&self) -> RequestView {
        match *self {
            Request::Render { template, globals } => RequestView::Render {
                template: template@,
                globals: object_entries(globals),
            },
            Request::Compile { source, style } => RequestView::Compile { source: source@, style },
        }
    }
}

/// What an engine answered.
#[derive(Debug)]
pub enum Answer {
    /// The template engine: the rendered text, or why there is none.
    Rendered(Result<String, liquid::Error>),
    /// The stylesheet compiler: the CSS, or why there is none.
    Compiled(Result<String, Box<grass::Error>>),
}

/// What an answer holds.
pub enum AnswerView {
    Rendered(Result<Seq<char>, liquid::Error>),
    Compiled(Result<Seq<char>, Box<grass::Error>>),
}

impl View for Answer {
    type V = AnswerView;

    open spec fn view(&self) -> AnswerView {
        match *self {
            Answer::Rendered(Ok(text)) => AnswerView::Rendered(Ok(text@)),
            Answer::Rendered(Err(cause)) => AnswerView::Rendered(Err(cause)),
            Answer::Compiled(Ok(css)) => AnswerView::Compiled(Ok(css@)),
            Answer::Compiled(Err(cause)) => AnswerView::Compiled(Err(cause)),
        }
    }
}

/// The end of a build: the page behind the sanitize stage.
pub open spec fn finished(page: PageView, renderers: Renderers) -> BuildState {
    BuildState::Done(sanitized(page, renderers))
}

/// A page that enters the layout stage. Where its data names a layout and
/// the file of that name was read, the build waits for the layout to be
/// rendered; else the page passes through to the end.
pub open spec fn entering_layout(
    page: PageView,
    renderers: Renderers,
    layouts: Seq<LayoutView>,
) -> BuildState {
    match layout_name(page.data, renderers) {
        Some(name) => match layout_text(layouts, name) {
            Some(text) => BuildState::LayingOut { page, layout: name, text },
            None => finished(page, renderers),
        },
        None => finished(page, renderers),
    }
}

/// A page that enters the markup stage. Markdown is rendered on the spot, a
/// stylesheet source waits for the compiler, any other page passes through
/// to the layout stage.
pub open spec fn entering_markup(
    page: PageView,
    renderers: Renderers,
    layouts: Seq<LayoutView>,
) -> BuildState {
    match markup_of(page.path, renderers) {
        Markup::Markdown => entering_layout(
            marked_down(page, renderers.sanitizer),
            renderers,
            layouts,
        ),
        Markup::Stylesheet => BuildState::Styling(page),
        Markup::Unchanged => entering_layout(page, renderers, layouts),
    }
}

/// A page that enters the template stage, the first: with templates on the
/// build waits for its content to be rendered, with templates off the page
/// passes through to the markup stage.
pub open spec fn entering_template(
    page: PageView,
    renderers: Renderers,
    layouts: Seq<LayoutView>,
) -> BuildState {
    if renderers.liquid {
        BuildState::Templating(page)
    } else {
        entering_markup(page, renderers, layouts)
    }
}

/// The state that follows `state` on an answer. The answer of the engine
/// that the build waits for takes the page into the next stage, or ends the
/// build with the failure. Any other answer changes nothing.
pub open spec fn next_state(
    state: BuildState,
    answer: AnswerView,
    renderers: Renderers,
    layouts: Seq<LayoutView>,
) -> BuildState {
    match (state, answer) {
        (BuildState::Templating(page), AnswerView::Rendered(Ok(text))) => entering_markup(
            with_content(page, text),
            renderers,
            layouts,
        ),
        (BuildState::Templating(page), AnswerView::Rendered(Err(cause))) => BuildState::Failed(
            Failure::Template { page: page.path, cause },
        ),
        (BuildState::Styling(page), AnswerView::Compiled(Ok(css))) => entering_layout(
            styled(page, css),
            renderers,
            layouts,
        ),
        (BuildState::Styling(page), AnswerView::Compiled(Err(cause))) => BuildState::Failed(
            Failure::Stylesheet { page: page.path, cause },
        ),
        (BuildState::LayingOut { page, layout, text }, AnswerView::Rendered(Ok(out))) => finished(
            laid_out(page, layout, out),
            renderers,
        ),
        (BuildState::LayingOut { page, layout, text }, AnswerView::Rendered(Err(cause))) => {
            BuildState::Failed(Failure::Layout { page: page.path, layout, cause })
        },
        _ => state,
    }
}

/// What a build asks of an engine, if it waits for one. The template engine
/// gets the content of the page or the text of the layout, as it stands,
/// and the snapshot and the page as variables; the compiler gets the content
/// of the page and writes compressed CSS.
pub open spec fn request_of(state: BuildState, site: SiteView) -> Option<RequestView> {
    match state {
        BuildState::Templating(page) => Some(
            RequestView::Render { template: page.content, globals: render_globals(page, site) },
        ),
        BuildState::Styling(page) => Some(
            RequestView::Compile { source: page.content, style: CssStyle::Compressed },
        ),
        BuildState::LayingOut { page, layout, text } => Some(
            RequestView::Render { template: text, globals: render_globals(page, site) },
        ),
        _ => None,
    }
}

/// An answer that gives the build what it asks for: `templated` for the
/// content of the page, `css` for its stylesheet source, `wrapped` for its
/// layout.
pub open spec fn good_answer(
    state: BuildState,
    templated: Seq<char>,
    css: Seq<char>,
    wrapped: Seq<char>,
) -> AnswerView {
    match state {
        BuildState::Styling(_) => AnswerView::Compiled(Ok(css)),
        BuildState::LayingOut { .. } => AnswerView::Rendered(Ok(wrapped)),
        _ => AnswerView::Rendered(Ok(templated)),
    }
}

/// The path that a page is written to: its own, with the extension that
/// the markup stage gives it, and then the one of the layout it is put
/// under.
pub open spec fn output_path(
    page: PageView,
    renderers: Renderers,
    layouts: Seq<LayoutView>,
) -> Seq<char> {
    let marked = markup_path(page.path, renderers);
    match layout_name(page.data, renderers) {
        Some(name) => if layout_text(layouts, name) is Some {
            laid_out_path(marked, name)
        } else {
            marked
        },
        None => marked,
    }
}

/// The page that the four stages make of a loaded page, one after another,
/// where the engines answer `templated` for its content, `css` for its
/// stylesheet source and `wrapped` for its layout.
pub open spec fn built_page(
    page: PageView,
    renderers: Renderers,
    layouts: Seq<LayoutView>,
    templated: Seq<char>,
    css: Seq<char>,
    wrapped: Seq<char>,
) -> PageView {
    let rendered = if renderers.liquid {
        with_content(page, templated)
    } else {
        page
    };
    let marked = marked_up(rendered, renderers, css);
    let laid = match layout_name(marked.data, renderers) {
        Some(name) => if layout_text(layouts, name) is Some {
            laid_out(marked, name, wrapped)
        } else {
            marked
        },
        None => marked,
    };
    sanitized(laid, renderers)
}

/// The layout stage on one page, and the sanitize stage behind it where no
/// layout is to be rendered.
///
/// A page that asks for no layout, or whose layout could not be read,
/// passes through. Else the build waits for the text of the layout to be
/// rendered, once and as it stands, so that it can hold the page's content
/// wherever it likes.
pub fn complete_site_page(page: Page, renderers: &Renderers, layouts: &Vec<Layout>) -> (state:
    PageBuild)
    ensures
        state@ == entering_layout(page@, *renderers, layout_views(layouts@)),
{
    match layout_of(&page, renderers) {
        None => PageBuild::Done(sanitize_page(page, renderers)),
        Some(name) => match find_layout(layouts, name.as_str()) {
            None => PageBuild::Done(sanitize_page(page, renderers)),
            Some(text) => PageBuild::LayingOut { page, layout: name, text: text.to_owned() },
        },
    }
}

/// The markup stage on one page, and the stages behind it as far as they go
/// without an engine. Markdown becomes HTML with its extension; a stylesheet
/// source waits for the compiler; any other page passes through.
pub fn render_page(page: Page, renderers: &Renderers, layouts: &Vec<Layout>) -> (state: PageBuild)
    ensures
        state@ == entering_markup(page@, *renderers, layout_views(layouts@)),
{
    match markup_kind(page.path.as_str(), renderers) {
        Markup::Markdown => complete_site_page(mark_down(page, renderers), renderers, layouts),
        Markup::Stylesheet => PageBuild::Styling(page),
        Markup::Unchanged => complete_site_page(page, renderers, layouts),
    }
}

/// Begins the build of one page of the snapshot with the template stage.
/// With templates on the build waits for the content to be rendered; with
/// templates off the page passes through to the markup stage.
pub fn build_site_page(page: Page, renderers: &Renderers, layouts: &Vec<Layout>) -> (state:
    PageBuild)
    ensures
        state@ == entering_template(page@, *renderers, layout_views(layouts@)),
{
    if renderers.liquid {
        PageBuild::Templating(page)
    } else {
        render_page(page, renderers, layouts)
    }
}

impl PageBuild {
    /// What the build asks of an engine: `None` where it waits for none,
    /// because the page is built or the build has failed.
    pub fn request(&self, site: &Site) -> (request: Option<Request>)
        ensures
            match request {
                Some(asked) => request_of(self@, site@) == Some(asked@),
                None => request_of(self@, site@) is None,
            },
    {
        match self {
            PageBuild::Templating(page) => Some(
                Request::Render { template: page.content.clone(), globals: globals_of(page, site) },
            ),
            PageBuild::Styling(page) => Some(
                Request::Compile { source: page.content.clone(), style: CssStyle::Compressed },
            ),
            PageBuild::LayingOut { page, layout, text } => Some(
                Request::Render { template: text.clone(), globals: globals_of(page, site) },
            ),
            _ => None,
        }
    }

    /// Takes the build on with the answer of an engine.
    pub fn step(self, answer: Answer, renderers: &Renderers, layouts: &Vec<Layout>) -> (next:
        PageBuild)
        ensures
            next@ == next_state(self@, answer@, *renderers, layout_views(layouts@)),
    {
        match (self, answer) {
            (PageBuild::Templating(page), Answer::Rendered(outcome)) => match apply_template(
                page,
                outcome,
            ) {
                Ok(templated) => render_page(templated, renderers, layouts),
                Err(failure) => PageBuild::Failed(failure),
            },
            (PageBuild::Styling(page), Answer::Compiled(outcome)) => match apply_stylesheet(
                page,
                outcome,
            ) {
                Ok(styled) => complete_site_page(styled, renderers, layouts),
                Err(failure) => PageBuild::Failed(failure),
            },
            (PageBuild::LayingOut { page, layout, text }, Answer::Rendered(outcome)) => {
                match apply_layout(page, layout.as_str(), outcome) {
                    Ok(laid) => PageBuild::Done(sanitize_page(laid, renderers)),
                    Err(failure) => PageBuild::Failed(failure),
                }
            },
            (state, _) => state,
        }
    }

    /// How the build ended: the page, or the failure; `None` while it waits
    /// for an engine.
    pub fn outcome(self) -> (ended: Option<Result<Page, BuildError>>)
        ensures
            match self {
                PageBuild::Done(page) => ended == Some(Ok::<Page, BuildError>(page)),
                PageBuild::Failed(failure) => ended == Some(Err::<Page, BuildError>(failure)),
                _ => ended is None,
            },
    {
        match self {
            PageBuild::Done(page) => Some(Ok(page)),
            PageBuild::Failed(failure) => Some(Err(failure)),
            _ => None,
        }
    }
}

/// Whether a path is that of a fragment: a file that only serves other
/// pages, as an include or a layout, and is no output of its own. It is one
/// where fragments are marked by an extension and the path has it.
pub open spec fn is_fragment(path: Seq<char>, marker: Option<Seq<char>>) -> bool {
    marker matches Some(ext) && extension(path) == Some(ext)
}

/// The extension that marks fragments, as the contracts speak of it.
pub open spec fn marker_view(marker: Option<&str>) -> Option<Seq<char>> {
    match marker {
        Some(ext) => Some(ext@),
        None => None,
    }
}

/// The pages that are output of their own: all but the fragments, in their
/// order.
pub open spec fn standalone(pages: Seq<PageView>, marker: Option<Seq<char>>) -> Seq<PageView>
    decreases pages.len(),
{
    if pages.len() == 0 {
        Seq::empty()
    } else {
        let before = standalone(pages.drop_last(), marker);
        if is_fragment(pages.last().path, marker) {
            before
        } else {
            before.push(pages.last())
        }
    }
}

/// Whether a path is that of a fragment.
pub fn fragment_path(path: &str, marker: Option<&str>) -> (found: bool)
    ensures
        found == is_fragment(path@, marker_view(marker)),
{
    match marker {
        None => false,
        Some(wanted) => match extension_of(path) {
            Some(ext) => ext == wanted.to_owned(),
            None => false,
        },
    }
}

/// The pages of the snapshot that are built: all but the fragments, in
/// their order. Where `fragments` names an extension, the pages of that
/// extension are passed over: they are still seen by the templates of the
/// others, but are neither rendered nor part of the output.
pub fn standalone_pages(site: &Site, fragments: Option<&str>) -> (pages: Vec<Page>)
    ensures
        page_views(pages@) == standalone(site@.pages, marker_view(fragments)),
{
    let ghost marker = marker_view(fragments);
    let mut pages: Vec<Page> = Vec::new();
    let mut i: usize = 0;
    while i < site.pages.len()
        invariant
            i <= site.pages.len(),
            marker == marker_view(fragments),
            page_views(pages@) =~= standalone(site@.pages.take(i as int), marker),
        decreases site.pages.len() - i,
    {
        proof {
            assert(site@.pages.take(i + 1).drop_last() =~= site@.pages.take(i as int));
            assert(site@.pages.take(i + 1).last() == site@.pages[i as int]);
        }
        if !fragment_path(site.pages[i].path.as_str(), fragments) {
            let ghost before = page_views(pages@);
            pages.push(site.pages[i].duplicate());
            assert(page_views(pages@) =~= before.push(site@.pages[i as int]));
        }
        i = i + 1;
    }
    proof {
        assert(site@.pages.take(site.pages@.len() as int) =~= site@.pages);
    }
    pages
}

/// Where the first failure stands among the ends of the builds, if one of
/// them failed.
pub open spec fn first_failure(ends: Seq<Result<Page, BuildError>>) -> Option<int>
    decreases ends.len(),
{
    if ends.len() == 0 {
        None
    } else {
        match first_failure(ends.drop_last()) {
            Some(at) => Some(at),
            None => if ends.last() is Err {
                Some(ends.len() - 1)
            } else {
                None
            },
        }
    }
}

/// The first failure is one, and none stands before it.
pub proof fn lemma_first_failure(ends: Seq<Result<Page, BuildError>>)
    ensures
        match first_failure(ends) {
            Some(at) => 0 <= at < ends.len() && ends[at] is Err && forall|i: int|
                0 <= i < at ==> ends[i] is Ok,
            None => forall|i: int| 0 <= i < ends.len() ==> ends[i] is Ok,
        },
    decreases ends.len(),
{
    if ends.len() > 0 {
        lemma_first_failure(ends.drop_last());
        assert(forall|i: int| 0 <= i < ends.len() - 1 ==> ends[i] == ends.drop_last()[i]);
    }
}

/// Gathers the ends of the builds of all pages, given in the order of the
/// pages: the built pages in that order, or the first failure, which ends
/// the build of the site.
pub fn gather_pages(ends: Vec<Result<Page, BuildError>>) -> (built: Result<Vec<Page>, BuildError>)
    ensures
        match first_failure(ends@) {
            Some(at) => built == Err::<Vec<Page>, BuildError>(ends@[at]->Err_0),
            None => built matches Ok(pages) && pages@.len() == ends@.len() && forall|i: int|
                0 <= i < pages@.len() ==> ends@[i] == Ok::<Page, BuildError>(#[trigger] pages@[i]),
        },
{
    let mut pages: Vec<Page> = Vec::new();
    for end in it: ends.into_iter()
        invariant
            it.seq() == ends@,
            first_failure(ends@.take(it.index() as int)) is None,
            pages@.len() == it.index(),
            forall|i: int|
                0 <= i < pages@.len() ==> ends@[i] == Ok::<Page, BuildError>(#[trigger] pages@[i]),
    {
        proof {
            assert(ends@.take(it.index() + 1).drop_last() =~= ends@.take(it.index() as int));
        }
        match end {
            Ok(page) => {
                pages.push(page);
            },
            Err(failure) => {
                proof {
                    let before = ends@.take(it.index() as int);
                    lemma_first_failure(before);
                    lemma_first_failure(ends@);
                    assert forall|i: int| 0 <= i < it.index() implies ends@[i] is Ok by {
                        assert(ends@[i] == before[i]);
                    }
                }
                return Err(failure);
            },
        }
    }
    proof {
        assert(ends@.take(ends@.len() as int) =~= ends@);
    }
    Ok(pages)
}

} // verus!
