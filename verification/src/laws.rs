//! What holds of the build as a whole, proved from the contracts of its
//! stages.

use vstd::prelude::*;
use crate::builder::Renderers;
use crate::frontmatter::{
    block_end, block_of, has_frontmatter, lemma_no_terminator_no_body, occurs_at, terminator,
};
use crate::layout::{laid_out, layout_name};
use crate::loader::{
    data_record, loaded_data, loaded_page, merged_vars, plain_files, source_page, toml_entries,
    SourceView,
};
use crate::markup::{
    css_extension, html_extension, markdown_extension, marked_up, markup_of, sanitized,
    stylesheet_extension, Markup,
};
use crate::names::{
    extension, file_name, has_char, lemma_extension_is_set, names_file, with_extension,
};
use crate::output::{is_shadowed, propagated};
use crate::page::{page_value, render_globals, site_value, PageView, SiteView};
use crate::pipeline::{
    built_page, entering_layout, entering_markup, entering_template, good_answer, layout_text,
    next_state, output_path, request_of, AnswerView, BuildState, LayoutView, RequestView,
};
use crate::vars::Entries;

verus! {

/// A text that holds no `---` anywhere is no page source: loaded with
/// templates on, it gives no page, whatever its name and the defaults. So
/// the output of a build, where it holds no `---`, is never taken for a
/// page with frontmatter again.
pub proof fn frontmatter_is_not_found_again(name: Seq<char>, text: Seq<char>, defaults: Entries)
    requires
        forall|i: int| !occurs_at(text, terminator(), i),
    ensures
        !has_frontmatter(text),
        loaded_page(name, text, defaults, true) is None,
{
    let end = block_end(terminator());
    assert forall|i: int| !occurs_at(text, end, i) by {
        if occurs_at(text, end, i) {
            let found = text.subrange(i, i + end.len());
            assert(text.subrange(i + 1, i + 4) =~= found.subrange(1, 4));
            assert(end.subrange(1, 4) =~= terminator());
            assert(occurs_at(text, terminator(), i + 1));
        }
    }
    lemma_no_terminator_no_body(text);
}

/// The extensions `html` and `css` hold neither `.` nor `/`.
proof fn lemma_plain_extension(ext: Seq<char>)
    requires
        ext == html_extension() || ext == css_extension(),
    ensures
        ext.len() > 0,
        !has_char(ext, '.'),
        !has_char(ext, '/'),
{
    if has_char(ext, '.') {
        let i = choose|i: int| 0 <= i < ext.len() && ext[i] == '.';
        assert(ext[i] != '.');
    }
    if has_char(ext, '/') {
        let i = choose|i: int| 0 <= i < ext.len() && ext[i] == '/';
        assert(ext[i] != '/');
    }
}

/// The path of a page after the markup stage asks for no transform: what
/// has been rendered to `html` or compiled to `css` is neither markdown nor
/// a stylesheet source.
pub proof fn markup_leaves_no_markup(page: PageView, renderers: Renderers, css: Seq<char>)
    ensures
        markup_of(marked_up(page, renderers, css).path, renderers) is Unchanged,
{
    if markup_of(page.path, renderers) is Markdown {
        assert(names_file(file_name(page.path)));
        lemma_plain_extension(html_extension());
        lemma_extension_is_set(page.path, html_extension());
        assert(html_extension() != markdown_extension()) by {
            assert(html_extension().len() != markdown_extension().len());
        }
        assert(html_extension() != stylesheet_extension()) by {
            assert(html_extension()[0] != stylesheet_extension()[0]);
        }
    } else if markup_of(page.path, renderers) is Stylesheet {
        assert(names_file(file_name(page.path)));
        lemma_plain_extension(css_extension());
        lemma_extension_is_set(page.path, css_extension());
        assert(css_extension() != markdown_extension()) by {
            assert(css_extension().len() != markdown_extension().len());
        }
        assert(css_extension() != stylesheet_extension()) by {
            assert(css_extension().len() != stylesheet_extension().len());
        }
    }
}

/// The markup stage applied to its own output changes nothing, whatever
/// the compiler would answer the second time.
pub proof fn markup_is_idempotent(
    page: PageView,
    renderers: Renderers,
    css: Seq<char>,
    again: Seq<char>,
)
    ensures
        marked_up(marked_up(page, renderers, css), renderers, again) == marked_up(
            page,
            renderers,
            css,
        ),
{
    markup_leaves_no_markup(page, renderers, css);
}

/// The markup stage of a build applies the one transform that the
/// extension of the page asks for, to content and extension together. A
/// stylesheet source waits for the compiler and goes on with the CSS; any
/// other page goes on at once.
pub proof fn markup_stage_applies_one_transform(
    page: PageView,
    renderers: Renderers,
    layouts: Seq<LayoutView>,
    css: Seq<char>,
)
    ensures
        markup_of(page.path, renderers) is Stylesheet ==> entering_markup(page, renderers, layouts)
            == BuildState::Styling(page) && next_state(
            BuildState::Styling(page),
            AnswerView::Compiled(Ok(css)),
            renderers,
            layouts,
        ) == entering_layout(marked_up(page, renderers, css), renderers, layouts),
        !(markup_of(page.path, renderers) is Stylesheet) ==> entering_markup(
            page,
            renderers,
            layouts,
        ) == entering_layout(marked_up(page, renderers, css), renderers, layouts),
{
}

/// Every request of a build hands the template engine one view of the
/// site: the value of the snapshot as it was loaded. It is the same for any
/// two builds, whatever stage each is in and whatever has been rendered by
/// then, and beside it stands the page of the build itself.
pub proof fn snapshot_is_seen_alike(a: BuildState, b: BuildState, site: SiteView)
    requires
        request_of(a, site) matches Some(RequestView::Render { .. }),
        request_of(b, site) matches Some(RequestView::Render { .. }),
    ensures
        request_of(a, site)->0->globals[seq!['s', 'i', 't', 'e']] == site_value(site),
        request_of(b, site)->0->globals[seq!['s', 'i', 't', 'e']] == site_value(site),
        request_of(a, site)->0->globals.dom() == request_of(b, site)->0->globals.dom(),
        a matches BuildState::Templating(page) ==> request_of(a, site)->0->globals[seq![
            'p',
            'a',
            'g',
            'e',
        ]] == page_value(page),
        a matches BuildState::LayingOut { page, .. } ==> request_of(a, site)->0->globals[seq![
            'p',
            'a',
            'g',
            'e',
        ]] == page_value(page),
{
    assert(seq!['s', 'i', 't', 'e'] != seq!['p', 'a', 'g', 'e']) by {
        assert(seq!['s', 'i', 't', 'e'][0] != seq!['p', 'a', 'g', 'e'][0]);
    }
    assert(request_of(a, site)->0->globals.dom() =~= request_of(b, site)->0->globals.dom());
}

/// A key of the frontmatter holds the frontmatter's value in the merged
/// variables, whether the defaults have the key or not; a key of the
/// defaults alone holds the default.
pub proof fn frontmatter_wins(defaults: Entries, own: Entries, key: Seq<char>)
    ensures
        own.contains_key(key) ==> merged_vars(defaults, Some(own)).contains_key(key)
            && merged_vars(defaults, Some(own))[key] == own[key],
        !own.contains_key(key) && defaults.contains_key(key) ==> merged_vars(
            defaults,
            Some(own),
        ).contains_key(key) && merged_vars(defaults, Some(own))[key] == defaults[key],
{
}

/// In a page loaded from a source whose frontmatter parses, a key of the
/// frontmatter holds the frontmatter's value.
pub proof fn loaded_page_prefers_frontmatter(
    name: Seq<char>,
    text: Seq<char>,
    defaults: Entries,
    key: Seq<char>,
)
    requires
        has_frontmatter(text),
        toml_entries(block_of(text, terminator())) matches Some(own) && own.contains_key(key),
    ensures
        loaded_page(name, text, defaults, true) matches Some(page) && page.data.contains_key(key)
            && page.data[key] == toml_entries(block_of(text, terminator()))->0[key],
{
}

/// A build that waits for its layout ends with the answer: the page under
/// that one layout, with its own data, or the failure. Whatever the layout
/// file holds, no layout is looked up for a layout.
pub proof fn layout_is_applied_once(
    page: PageView,
    layout: Seq<char>,
    text: Seq<char>,
    answer: Result<Seq<char>, liquid::Error>,
    renderers: Renderers,
    layouts: Seq<LayoutView>,
)
    ensures
        match answer {
            Ok(wrapped) => next_state(
                BuildState::LayingOut { page, layout, text },
                AnswerView::Rendered(answer),
                renderers,
                layouts,
            ) == BuildState::Done(sanitized(laid_out(page, layout, wrapped), renderers)),
            Err(_) => next_state(
                BuildState::LayingOut { page, layout, text },
                AnswerView::Rendered(answer),
                renderers,
                layouts,
            ) is Failed,
        },
        answer matches Ok(wrapped) ==> sanitized(laid_out(page, layout, wrapped), renderers).data
            == page.data,
{
}

/// A build whose engines answer goes through the four stages in their
/// order and ends after three answers at most, with the page that the
/// stages make one after another. The path of that page is decided when the
/// page is loaded: no answer of an engine changes it.
pub proof fn build_ends_in_built_page(
    page: PageView,
    renderers: Renderers,
    layouts: Seq<LayoutView>,
    templated: Seq<char>,
    css: Seq<char>,
    wrapped: Seq<char>,
)
    ensures
        ({
            let first = entering_template(page, renderers, layouts);
            let second = next_state(
                first,
                good_answer(first, templated, css, wrapped),
                renderers,
                layouts,
            );
            let third = next_state(
                second,
                good_answer(second, templated, css, wrapped),
                renderers,
                layouts,
            );
            next_state(third, good_answer(third, templated, css, wrapped), renderers, layouts)
        }) == BuildState::Done(built_page(page, renderers, layouts, templated, css, wrapped)),
        built_page(page, renderers, layouts, templated, css, wrapped).path == output_path(
            page,
            renderers,
            layouts,
        ),
        built_page(page, renderers, layouts, templated, css, wrapped).data == page.data,
{
}

/// A markdown page is written under its own name with the extension
/// `html`, and under no other: where it is put under no layout, or under
/// one whose name ends in `.html`.
pub proof fn markdown_page_is_written_as_html(
    page: PageView,
    renderers: Renderers,
    layouts: Seq<LayoutView>,
)
    requires
        markup_of(page.path, renderers) is Markdown,
        layout_name(page.data, renderers) matches Some(name) && layout_text(layouts, name) is Some
            ==> extension(layout_name(page.data, renderers)->0) == Some(html_extension()),
    ensures
        output_path(page, renderers, layouts) == with_extension(page.path, html_extension()),
        extension(output_path(page, renderers, layouts)) == Some(html_extension()),
        output_path(page, renderers, layouts) != page.path,
{
    let marked = with_extension(page.path, html_extension());
    assert(names_file(file_name(page.path)));
    lemma_plain_extension(html_extension());
    lemma_extension_is_set(page.path, html_extension());
    assert(with_extension(marked, html_extension()) == marked);
    assert(html_extension() != markdown_extension()) by {
        assert(html_extension().len() != markdown_extension().len());
    }
}

/// A source that gives a page gives it under its own name, and is no plain
/// file: where no two sources have one name, the name of a page source is
/// not among the plain files, so nothing is carried over under it.
pub proof fn page_source_is_no_plain_file(
    sources: Seq<SourceView>,
    defaults: Entries,
    templates: bool,
    pages: Seq<PageView>,
    at: int,
)
    requires
        0 <= at < sources.len(),
        forall|i: int, j: int|
            0 <= i < j < sources.len() ==> sources[i].name != sources[j].name,
        source_page(sources[at], defaults, templates) is Some,
    ensures
        source_page(sources[at], defaults, templates)->0.path == sources[at].name,
        !plain_files(sources, defaults, templates).contains(sources[at].name),
        !propagated(plain_files(sources, defaults, templates), pages).contains(sources[at].name),
{
    lemma_plain_files_are_sources(sources, defaults, templates);
    let files = plain_files(sources, defaults, templates);
    if files.contains(sources[at].name) {
        let k = choose|k: int| 0 <= k < files.len() && files[k] == sources[at].name;
        assert(files.contains(files[k]));
    }
    lemma_propagated_are_files(files, pages);
    let kept = propagated(files, pages);
    if kept.contains(sources[at].name) {
        let k = choose|k: int| 0 <= k < kept.len() && kept[k] == sources[at].name;
        assert(kept.contains(kept[k]));
    }
}

/// Each plain file is the name of a source that gives no page.
proof fn lemma_plain_files_are_sources(sources: Seq<SourceView>, defaults: Entries, templates: bool)
    ensures
        forall|name: Seq<char>| #[trigger]
            plain_files(sources, defaults, templates).contains(name) ==> exists|i: int|
                0 <= i < sources.len() && (#[trigger] sources[i]).name == name && source_page(
                    sources[i],
                    defaults,
                    templates,
                ) is None,
    decreases sources.len(),
{
    if sources.len() > 0 {
        let front = sources.drop_last();
        lemma_plain_files_are_sources(front, defaults, templates);
        let before = plain_files(front, defaults, templates);
        let files = plain_files(sources, defaults, templates);
        assert forall|name: Seq<char>| #[trigger] files.contains(name) implies exists|i: int|
            0 <= i < sources.len() && (#[trigger] sources[i]).name == name && source_page(
                sources[i],
                defaults,
                templates,
            ) is None by {
            let k = choose|k: int| 0 <= k < files.len() && files[k] == name;
            if k < before.len() {
                assert(before[k] == name);
                assert(before.contains(name));
                let i = choose|i: int|
                    0 <= i < front.len() && (#[trigger] front[i]).name == name && source_page(
                        front[i],
                        defaults,
                        templates,
                    ) is None;
                assert(sources[i] == front[i]);
            } else {
                assert(sources[sources.len() - 1].name == name);
            }
        }
    }
}

/// Each file that is carried over is one of the plain files.
proof fn lemma_propagated_are_files(files: Seq<Seq<char>>, pages: Seq<PageView>)
    ensures
        forall|name: Seq<char>| #[trigger]
            propagated(files, pages).contains(name) ==> files.contains(name),
    decreases files.len(),
{
    if files.len() > 0 {
        let front = files.drop_last();
        lemma_propagated_are_files(front, pages);
        let before = propagated(front, pages);
        let kept = propagated(files, pages);
        assert forall|name: Seq<char>| #[trigger] kept.contains(name) implies files.contains(
            name,
        ) by {
            let k = choose|k: int| 0 <= k < kept.len() && kept[k] == name;
            if k < before.len() {
                assert(before[k] == name);
                assert(before.contains(name));
                let i = choose|i: int| 0 <= i < front.len() && front[i] == name;
                assert(files[i] == name);
            } else {
                assert(files[files.len() - 1] == name);
            }
        }
    }
}

/// A data file that does not parse leaves no record and changes nothing
/// else: the records are those of the other files, in their order.
pub proof fn unparsed_data_is_skipped(texts: Seq<Seq<char>>, at: int, enabled: bool)
    requires
        0 <= at < texts.len(),
        data_record(texts[at]) is None,
    ensures
        loaded_data(texts, enabled) == loaded_data(texts.remove(at), enabled),
    decreases texts.len(),
{
    if enabled {
        if at == texts.len() - 1 {
            assert(texts.remove(at) =~= texts.drop_last());
        } else {
            unparsed_data_is_skipped(texts.drop_last(), at, enabled);
            assert(texts.remove(at).drop_last() =~= texts.drop_last().remove(at));
            assert(texts.remove(at).last() == texts.last());
        }
    }
}

/// A plain file whose name a page is written to is not carried over: the
/// page's output stands.
pub proof fn page_shadows_plain_file(files: Seq<Seq<char>>, pages: Seq<PageView>, name: Seq<char>)
    requires
        is_shadowed(name, pages),
    ensures
        !propagated(files, pages).contains(name),
    decreases files.len(),
{
    if files.len() > 0 {
        page_shadows_plain_file(files.drop_last(), pages, name);
        let before = propagated(files.drop_last(), pages);
        if !(is_shadowed(files.last(), pages) || before.contains(files.last())) {
            let after = before.push(files.last());
            assert forall|i: int| 0 <= i < after.len() implies after[i] != name by {
                if i < before.len() {
                    assert(before[i] == after[i]);
                    assert(before.contains(before[i]));
                }
            }
        }
    }
}

/// A plain file whose name no page is written to is carried over, once.
pub proof fn free_plain_file_is_carried(files: Seq<Seq<char>>, pages: Seq<PageView>, at: int)
    requires
        0 <= at < files.len(),
        !is_shadowed(files[at], pages),
    ensures
        propagated(files, pages).contains(files[at]),
    decreases files.len(),
{
    let before = propagated(files.drop_last(), pages);
    let last = files.last();
    if at < files.len() - 1 {
        free_plain_file_is_carried(files.drop_last(), pages, at);
        assert(files.drop_last()[at] == files[at]);
        if !(is_shadowed(last, pages) || before.contains(last)) {
            let i = choose|i: int| 0 <= i < before.len() && before[i] == files[at];
            assert(before.push(last)[i] == files[at]);
        }
    } else {
        if !before.contains(last) {
            assert(before.push(last)[before.len() as int] == last);
        }
    }
}

} // verus!
