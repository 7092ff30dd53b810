//! The markup stage and the sanitize stage: what a page's content is turned
//! into, by the extension of its path.

use vstd::prelude::*;
use crate::builder::Renderers;
use crate::error::{BuildError, Failure};
use crate::names::{extension, extension_of, set_extension, with_extension};
use crate::page::{Page, PageView};
use crate::template::with_content;

verus! {

/// The settings that markdown is rendered with.
#[derive(Clone, Debug)]
pub struct MarkdownOptions {
    pub strikethrough: bool,
    pub table: bool,
    pub autolink: bool,
    pub tasklist: bool,
    pub superscript: bool,
    pub header_ids: Option<String>,
    pub footnotes: bool,
    pub description_lists: bool,
    pub front_matter_delimiter: Option<String>,
    pub smart: bool,
    pub unsafe_html: bool,
}

/// What the settings hold.
pub struct MarkdownSettings {
    pub strikethrough: bool,
    pub table: bool,
    pub autolink: bool,
    pub tasklist: bool,
    pub superscript: bool,
    pub header_ids: Option<Seq<char>>,
    pub footnotes: bool,
    pub description_lists: bool,
    pub front_matter_delimiter: Option<Seq<char>>,
    pub smart: bool,
    pub unsafe_html: bool,
}

impl View for MarkdownOptions {
    type V = MarkdownSettings;

    open spec fn view(&self) -> MarkdownSettings {
        MarkdownSettings {
            strikethrough: self.strikethrough,
            table: self.table,
            autolink: self.autolink,
            tasklist: self.tasklist,
            superscript: self.superscript,
            header_ids: match self.header_ids {
                Some(prefix) => Some(prefix@),
                None => None,
            },
            footnotes: self.footnotes,
            description_lists: self.description_lists,
            front_matter_delimiter: match self.front_matter_delimiter {
                Some(delimiter) => Some(delimiter@),
                None => None,
            },
            smart: self.smart,
            unsafe_html: self.unsafe_html,
        }
    }
}

/// The style in which a stylesheet is written out.
#[derive(Clone, Copy, Debug, PartialEq, Eq, Structural)]
pub enum CssStyle {
    Expanded,
    Compressed,
}

/// The HTML that a markdown text is rendered to under the given settings.
pub uninterp spec fn markdown_html(input: Seq<char>, settings: MarkdownSettings) -> Seq<char>;

/// The HTML that is left of an HTML text when all that is not on the
/// cleaner's list of harmless tags and attributes is taken out.
pub uninterp spec fn sanitized_html(input: Seq<char>) -> Seq<char>;

/// `comrak::markdown_to_html`, with the settings carried over one by one
/// into default `comrak::ComrakOptions`.
#[verifier::external_body]
pub(crate) fn markdown_to_html(input: &str, options: &MarkdownOptions) -> (html: String)
    ensures
        html@ == markdown_html(input@, options@),
{
    let mut o = comrak::ComrakOptions::default();
    o.extension.strikethrough = options.strikethrough;
    o.extension.table = options.table;
    o.extension.autolink = options.autolink;
    o.extension.tasklist = options.tasklist;
    o.extension.superscript = options.superscript;
    o.extension.header_ids = options.header_ids.clone();
    o.extension.footnotes = options.footnotes;
    o.extension.description_lists = options.description_lists;
    o.extension.front_matter_delimiter = options.front_matter_delimiter.clone();
    o.parse.smart = options.smart;
    o.render.unsafe_ = options.unsafe_html;
    comrak::markdown_to_html(input, &o)
}

/// `ammonia::clean`: the text with all that the cleaner does not allow
/// taken out.
#[verifier::external_body]
pub(crate) fn clean_html(input: &str) -> (clean: String)
    ensures
        clean@ == sanitized_html(input@),
{
    ammonia::clean(input)
}

/// The settings of a build. Strikethrough, tables, autolinks, task lists,
/// superscript, description lists and smart punctuation are on, raw HTML is
/// let through, and a frontmatter block is passed over. Header anchors and
/// footnotes are on unless the output is sanitized afterwards.
pub open spec fn markdown_settings(sanitizer: bool) -> MarkdownSettings {
    MarkdownSettings {
        strikethrough: true,
        table: true,
        autolink: true,
        tasklist: true,
        superscript: true,
        header_ids: if sanitizer {
            None
        } else {
            Some(Seq::empty())
        },
        footnotes: !sanitizer,
        description_lists: true,
        front_matter_delimiter: Some(seq!['-', '-', '-']),
        smart: true,
        unsafe_html: true,
    }
}

/// The settings that a build renders markdown with.
pub fn markdown_options(renderers: &Renderers) -> (options: MarkdownOptions)
    ensures
        options@ == markdown_settings(renderers.sanitizer),
{
    proof {
        reveal_strlit("");
        reveal_strlit("---");
        assert(""@ =~= Seq::<char>::empty());
        assert("---"@ =~= seq!['-', '-', '-']);
    }
    MarkdownOptions {
        strikethrough: true,
        table: true,
        autolink: true,
        tasklist: true,
        superscript: true,
        header_ids: if renderers.sanitizer {
            None
        } else {
            Some("".to_owned())
        },
        footnotes: !renderers.sanitizer,
        description_lists: true,
        front_matter_delimiter: Some("---".to_owned()),
        smart: true,
        unsafe_html: true,
    }
}

/// Renders markdown to HTML with the settings of the build.
pub fn render_markdown(input: &str, renderers: &Renderers) -> (html: String)
    ensures
        html@ == markdown_html(input@, markdown_settings(renderers.sanitizer)),
{
    let options = markdown_options(renderers);
    markdown_to_html(input, &options)
}

/// The extension of markdown sources.
pub open spec fn markdown_extension() -> Seq<char> {
    seq!['m', 'd']
}

/// The extension of stylesheet sources.
pub open spec fn stylesheet_extension() -> Seq<char> {
    seq!['s', 'c', 's', 's']
}

/// The extension of HTML.
pub open spec fn html_extension() -> Seq<char> {
    seq!['h', 't', 'm', 'l']
}

/// The extension of CSS.
pub open spec fn css_extension() -> Seq<char> {
    seq!['c', 's', 's']
}

/// The transform of the markup stage that applies to a page.
#[derive(Clone, Copy, Debug, PartialEq, Eq, Structural)]
pub enum Markup {
    /// Markdown is rendered to HTML.
    Markdown,
    /// A stylesheet source is compiled to CSS.
    Stylesheet,
    /// The page passes through.
    Unchanged,
}

/// The transform that applies to a path: decided by its extension and by
/// the stages that are on, and by nothing else.
pub open spec fn markup_of(path: Seq<char>, renderers: Renderers) -> Markup {
    if renderers.markdown && extension(path) == Some(markdown_extension()) {
        Markup::Markdown
    } else if renderers.sass && extension(path) == Some(stylesheet_extension()) {
        Markup::Stylesheet
    } else {
        Markup::Unchanged
    }
}

/// Whether a text is the given literal.
fn is_text(text: &String, literal: &str) -> (same: bool)
    ensures
        same == (text@ == literal@),
{
    let other = literal.to_owned();
    *text == other
}

/// The transform that applies to a path.
pub fn markup_kind(path: &str, renderers: &Renderers) -> (kind: Markup)
    ensures
        kind == markup_of(path@, *renderers),
{
    proof {
        reveal_strlit("md");
        reveal_strlit("scss");
        assert("md"@ =~= markdown_extension());
        assert("scss"@ =~= stylesheet_extension());
    }
    match extension_of(path) {
        Some(ext) => {
            if renderers.markdown && is_text(&ext, "md") {
                Markup::Markdown
            } else if renderers.sass && is_text(&ext, "scss") {
                Markup::Stylesheet
            } else {
                Markup::Unchanged
            }
        },
        None => Markup::Unchanged,
    }
}

/// A markdown page rendered: HTML as content, `html` as extension.
pub open spec fn marked_down(page: PageView, sanitizer: bool) -> PageView {
    PageView {
        path: with_extension(page.path, html_extension()),
        data: page.data,
        content: markdown_html(page.content, markdown_settings(sanitizer)),
    }
}

/// A stylesheet page compiled: the CSS as content, `css` as extension.
pub open spec fn styled(page: PageView, css: Seq<char>) -> PageView {
    PageView { path: with_extension(page.path, css_extension()), data: page.data, content: css }
}

/// The path of a page after the markup stage.
pub open spec fn markup_path(path: Seq<char>, renderers: Renderers) -> Seq<char> {
    match markup_of(path, renderers) {
        Markup::Markdown => with_extension(path, html_extension()),
        Markup::Stylesheet => with_extension(path, css_extension()),
        Markup::Unchanged => path,
    }
}

/// A page after the markup stage, where `css` is what a stylesheet source
/// compiled to. Content and extension change together, or neither does.
pub open spec fn marked_up(page: PageView, renderers: Renderers, css: Seq<char>) -> PageView {
    match markup_of(page.path, renderers) {
        Markup::Markdown => marked_down(page, renderers.sanitizer),
        Markup::Stylesheet => styled(page, css),
        Markup::Unchanged => page,
    }
}

/// What the markup stage makes of the stylesheet compiler's answer: the page
/// with the CSS as content and `css` as extension, or the failure with the
/// page's path.
pub fn apply_stylesheet(page: Page, outcome: Result<String, Box<grass::Error>>) -> (built: Result<
    Page,
    BuildError,
>)
    ensures
        match outcome {
            Ok(css) => built matches Ok(out) && out@ == styled(page@, css@),
            Err(cause) => built matches Err(failure) && failure@ == (Failure::Stylesheet {
                page: page@.path,
                cause,
            }),
        },
{
    match outcome {
        Ok(css) => {
            proof {
                reveal_strlit("css");
                assert("css"@ =~= css_extension());
            }
            let path = set_extension(page.path.as_str(), "css");
            Ok(Page { path, data: page.data, content: css })
        },
        Err(cause) => Err(BuildError::Stylesheet { page: page.path, cause }),
    }
}

/// Renders a markdown page: HTML as content, `html` as extension.
pub fn mark_down(page: Page, renderers: &Renderers) -> (out: Page)
    ensures
        out@ == marked_down(page@, renderers.sanitizer),
{
    proof {
        reveal_strlit("html");
        assert("html"@ =~= html_extension());
    }
    let content = render_markdown(page.content.as_str(), renderers);
    let path = set_extension(page.path.as_str(), "html");
    Page { path, data: page.data, content }
}

/// Whether the sanitize stage applies to a path: the stage is on and the
/// extension is `html`.
pub open spec fn is_sanitized(path: Seq<char>, renderers: Renderers) -> bool {
    renderers.sanitizer && extension(path) == Some(html_extension())
}

/// What the sanitize stage makes of a page: cleaned content where the stage
/// applies, the page itself where it does not.
pub open spec fn sanitized(page: PageView, renderers: Renderers) -> PageView {
    if is_sanitized(page.path, renderers) {
        with_content(page, sanitized_html(page.content))
    } else {
        page
    }
}

/// The sanitize stage on one page. It never fails.
pub fn sanitize_page(page: Page, renderers: &Renderers) -> (out: Page)
    ensures
        out@ == sanitized(page@, *renderers),
        !is_sanitized(page@.path, *renderers) ==> out == page,
{
    if !renderers.sanitizer {
        return page;
    }
    proof {
        reveal_strlit("html");
        assert("html"@ =~= html_extension());
    }
    match extension_of(page.path.as_str()) {
        Some(ext) => {
            if is_text(&ext, "html") {
                let content = clean_html(page.content.as_str());
                Page { path: page.path, data: page.data, content }
            } else {
                page
            }
        },
        None => page,
    }
}

} // verus!
