use site_builder::builder::Renderers;
use site_builder::error::{BuildError, ErrorClass};
use site_builder::layout::{apply_layout, layout_of};
use site_builder::markup::{
    apply_stylesheet, mark_down, markdown_options, markup_kind, render_markdown, sanitize_page,
    CssStyle, Markup,
};
use site_builder::page::{globals_of, Page, Site};
use site_builder::pipeline::{
    build_site_page, complete_site_page, render_page, Answer, Layout, PageBuild, Request,
};
use site_builder::template::{apply_template, load_partials};
use site_builder::loader::Source;

fn answer_stage(request: Request, partials: &liquid::partials::InMemorySource) -> Answer {
    match request {
        Request::Render { template, globals } => {
            let compiler = liquid::partials::LazyCompiler::new(partials.clone());
            Answer::Rendered(
                liquid::ParserBuilder::with_stdlib()
                    .partials(compiler)
                    .build()
                    .and_then(|parser| parser.parse(&template))
                    .and_then(|parsed| parsed.render(&globals)),
            )
        },
        Request::Compile { source, style } => {
            let style = match style {
                CssStyle::Expanded => grass::OutputStyle::Expanded,
                CssStyle::Compressed => grass::OutputStyle::Compressed,
            };
            Answer::Compiled(grass::from_string(source, &grass::Options::default().style(style)))
        },
    }
}

fn drive_stage(
    mut state: PageBuild,
    site: &Site,
    renderers: &Renderers,
    layouts: &Vec<Layout>,
    partials: &liquid::partials::InMemorySource,
) -> Result<Page, BuildError> {
    while let Some(request) = state.request(site) {
        state = state.step(answer_stage(request, partials), renderers, layouts);
    }
    state.outcome().unwrap()
}

fn built(state: PageBuild, site: &Site, renderers: &Renderers, layouts: &Vec<Layout>) -> Page {
    drive_stage(state, site, renderers, layouts, &no_partials()).unwrap()
}

fn failed(state: PageBuild, site: &Site, renderers: &Renderers, layouts: &Vec<Layout>) -> BuildError {
    drive_stage(state, site, renderers, layouts, &no_partials()).unwrap_err()
}

fn none() -> Vec<Layout> {
    Vec::new()
}

fn layout(name: &str, text: Option<&str>) -> Vec<Layout> {
    vec![Layout { name: name.to_string(), text: text.map(|t| t.to_string()) }]
}

fn on() -> Renderers {
    Renderers { data: true, liquid: true, sass: true, markdown: true, sanitizer: false, layout: true }
}

fn templates_only() -> Renderers {
    Renderers { data: false, liquid: true, sass: false, markdown: false, sanitizer: false, layout: false }
}

fn page(path: &str, content: &str) -> Page {
    Page { path: path.to_string(), data: liquid::Object::new(), content: content.to_string() }
}

fn page_with_layout(path: &str, content: &str, layout: liquid::model::Value) -> Page {
    let mut data = liquid::Object::new();
    data.insert("layout".into(), layout);
    Page { path: path.to_string(), data, content: content.to_string() }
}

fn empty_site() -> Site {
    Site { pages: Vec::new(), files: Vec::new(), data: Vec::new() }
}

fn no_partials() -> liquid::partials::InMemorySource {
    load_partials(&Vec::new(), &on())
}

#[test]
fn markup_is_chosen_by_extension_and_switches() {
    assert_eq!(markup_kind("a.md", &on()), Markup::Markdown);
    assert_eq!(markup_kind("a.scss", &on()), Markup::Stylesheet);
    assert_eq!(markup_kind("a.html", &on()), Markup::Unchanged);
    assert_eq!(markup_kind("a.MD", &on()), Markup::Unchanged);
    assert_eq!(markup_kind("md", &on()), Markup::Unchanged);
    let mut off = on();
    off.markdown = false;
    off.sass = false;
    assert_eq!(markup_kind("a.md", &off), Markup::Unchanged);
    assert_eq!(markup_kind("a.scss", &off), Markup::Unchanged);
}

#[test]
fn markdown_page_becomes_html() {
    let out = built(render_page(page("post.md", "*hi*"), &on(), &none()), &empty_site(), &on(), &none());
    assert_eq!(out.path, "post.html");
    assert_eq!(out.content, "<p><em>hi</em></p>\n");
}

#[test]
fn stylesheet_page_becomes_compressed_css() {
    let state = render_page(page("site.scss", "a { b { color: red; } }"), &on(), &none());
    match state.request(&empty_site()) {
        Some(Request::Compile { source, style }) => {
            assert_eq!(source, "a { b { color: red; } }");
            assert_eq!(style, CssStyle::Compressed);
        },
        other => panic!("{:?}", other),
    }
    let out = built(state, &empty_site(), &on(), &none());
    assert_eq!(out.path, "site.css");
    assert_eq!(out.content, "a b{color:red}");
}

#[test]
fn other_page_passes_the_markup_stage() {
    let out = built(render_page(page("index.html", "<p>*hi*</p>"), &on(), &none()), &empty_site(), &on(), &none());
    assert_eq!(out.path, "index.html");
    assert_eq!(out.content, "<p>*hi*</p>");
}

#[test]
fn markup_stage_is_idempotent() {
    let once = built(render_page(page("post.md", "# T"), &on(), &none()), &empty_site(), &on(), &none());
    let twice = built(render_page(once.duplicate(), &on(), &none()), &empty_site(), &on(), &none());
    assert_eq!(twice.path, once.path);
    assert_eq!(twice.content, once.content);
    let css = built(render_page(page("s.scss", "a{b:c}"), &on(), &none()), &empty_site(), &on(), &none());
    let again = built(render_page(css.duplicate(), &on(), &none()), &empty_site(), &on(), &none());
    assert_eq!(again.path, css.path);
    assert_eq!(again.content, css.content);
}

#[test]
fn broken_stylesheet_ends_the_build() {
    let failure = failed(render_page(page("site.scss", "a { b: "), &on(), &none()), &empty_site(), &on(), &none());
    assert!(matches!(failure, BuildError::Stylesheet { .. }));
    assert_eq!(failure.page(), "site.scss");
    assert_eq!(failure.class(), ErrorClass::Data);
}

#[test]
fn stylesheet_outcome_is_applied() {
    let out = apply_stylesheet(page("a.scss", "src"), Ok("css".to_string())).unwrap();
    assert_eq!(out.path, "a.css");
    assert_eq!(out.content, "css");
    let cause = grass::from_string("a {".to_string(), &grass::Options::default()).unwrap_err();
    let failure = apply_stylesheet(page("a.scss", "src"), Err(cause)).unwrap_err();
    assert_eq!(failure.page(), "a.scss");
}

#[test]
fn markdown_settings_follow_the_sanitizer() {
    let plain = markdown_options(&on());
    assert_eq!(plain.header_ids, Some(String::new()));
    assert!(plain.footnotes);
    assert!(plain.strikethrough && plain.table && plain.autolink && plain.tasklist);
    assert!(plain.superscript && plain.description_lists && plain.smart && plain.unsafe_html);
    assert_eq!(plain.front_matter_delimiter, Some("---".to_string()));
    let mut sanitizing = on();
    sanitizing.sanitizer = true;
    let strict = markdown_options(&sanitizing);
    assert_eq!(strict.header_ids, None);
    assert!(!strict.footnotes);
}

#[test]
fn markdown_header_anchors_depend_on_the_sanitizer() {
    let mut sanitizing = on();
    sanitizing.sanitizer = true;
    assert_eq!(render_markdown("# Hello", &sanitizing), "<h1>Hello</h1>\n");
    assert!(render_markdown("# Hello", &on()).contains("id=\"hello\""));
    assert_eq!(render_markdown("~~x~~", &on()), "<p><del>x</del></p>\n");
}

#[test]
fn sanitizer_cleans_html_pages_only() {
    let mut sanitizing = on();
    sanitizing.sanitizer = true;
    let cleaned = sanitize_page(page("a.html", "XSS<script>attack()</script>"), &sanitizing);
    assert_eq!(cleaned.content, "XSS");
    let css = sanitize_page(page("a.css", "XSS<script>attack()</script>"), &sanitizing);
    assert_eq!(css.content, "XSS<script>attack()</script>");
    let off = sanitize_page(page("a.html", "XSS<script>attack()</script>"), &on());
    assert_eq!(off.content, "XSS<script>attack()</script>");
}

#[test]
fn template_sees_page_and_site() {
    let mut data = liquid::Object::new();
    data.insert("title".into(), liquid::model::Value::scalar("T"));
    let a = Page { path: "a.md".into(), data, content: "{{ page.data.title }}/{{ page.path }}/{{ site.pages.size }}/{{ site.files[0] }}".into() };
    let b = page("b.md", "B");
    let site = Site { pages: vec![a.duplicate(), b], files: vec!["logo.svg".into()], data: Vec::new() };
    let out = built(build_site_page(a, &templates_only(), &none()), &site, &templates_only(), &none());
    assert_eq!(out.content, "T/a.md/2/logo.svg");
    assert_eq!(out.path, "a.md");
}

#[test]
fn template_sees_other_pages_as_loaded() {
    let a = page("a.md", "{{ site.pages[1].content }}");
    let b = page("b.md", "{{ 1 | plus: 1 }}");
    let site = Site { pages: vec![a.duplicate(), b.duplicate()], files: Vec::new(), data: Vec::new() };
    let built_b = built(build_site_page(b, &templates_only(), &none()), &site, &templates_only(), &none());
    assert_eq!(built_b.content, "2");
    let built_a = built(build_site_page(a, &templates_only(), &none()), &site, &templates_only(), &none());
    assert_eq!(built_a.content, "{{ 1 | plus: 1 }}");
}

#[test]
fn globals_hold_site_and_page() {
    let a = page("a.md", "A");
    let site = Site { pages: vec![a.duplicate()], files: Vec::new(), data: Vec::new() };
    let globals = globals_of(&a, &site);
    assert_eq!(globals.len(), 2);
    assert!(globals.get("site").unwrap().clone().into_object().unwrap().contains_key("pages"));
    let seen = globals.get("page").unwrap().clone().into_object().unwrap();
    assert_eq!(seen.len(), 3);
    assert!(seen.contains_key("path") && seen.contains_key("data") && seen.contains_key("content"));
}

#[test]
fn template_includes_partials_by_stem() {
    let files = vec![Source { name: "nav.liquid".into(), text: Some("<nav/>".into()) }];
    let partials = load_partials(&files, &on());
    let state = build_site_page(page("a", "{% include \"nav\" %}!"), &on(), &none());
    let out = drive_stage(state, &empty_site(), &on(), &none(), &partials).unwrap().content;
    assert_eq!(out, "<nav/>!");
}

#[test]
fn template_stage_off_passes_the_page() {
    let mut off = on();
    off.liquid = false;
    let mut plain = off;
    plain.markdown = false;
    let state = build_site_page(page("a.md", "{{ broken"), &plain, &none());
    assert!(state.request(&empty_site()).is_none());
    let out = state.outcome().unwrap().unwrap();
    assert_eq!(out.content, "{{ broken");
}

#[test]
fn broken_template_ends_the_build() {
    let failure = failed(build_site_page(page("a.md", "{{ broken"), &on(), &none()), &empty_site(), &on(), &none());
    assert!(matches!(failure, BuildError::Template { .. }));
    assert_eq!(failure.page(), "a.md");
}

#[test]
fn partial_without_text_is_registered_empty() {
    let files = vec![Source { name: "nav.liquid".into(), text: None }];
    let partials = load_partials(&files, &on());
    let state = build_site_page(page("a", "[{% include \"nav\" %}]"), &on(), &none());
    let out = drive_stage(state, &empty_site(), &on(), &none(), &partials).unwrap();
    assert_eq!(out.content, "[]");
}

#[test]
fn template_outcome_is_applied() {
    let out = apply_template(page("a.md", "old"), Ok("new".to_string())).unwrap();
    assert_eq!(out.content, "new");
    assert_eq!(out.path, "a.md");
}

#[test]
fn layout_is_named_by_a_scalar() {
    let text = page_with_layout("a.html", "", liquid::model::Value::scalar("base.html"));
    assert_eq!(layout_of(&text, &on()), Some("base.html".to_string()));
    let number = page_with_layout("a.html", "", liquid::model::Value::scalar(5i64));
    assert_eq!(layout_of(&number, &on()), Some("5".to_string()));
    let empty = page_with_layout("a.html", "", liquid::model::Value::scalar(""));
    assert_eq!(layout_of(&empty, &on()), None);
    let array = page_with_layout("a.html", "", liquid::model::Value::Array(Vec::new()));
    assert_eq!(layout_of(&array, &on()), None);
    assert_eq!(layout_of(&page("a.html", ""), &on()), None);
    let mut off = on();
    off.layout = false;
    assert_eq!(layout_of(&text, &off), None);
}

#[test]
fn layout_wraps_the_page_and_gives_its_extension() {
    let source = page_with_layout("feed.md", "body", liquid::model::Value::scalar("feed.xml"));
    let layouts = layout("feed.xml", Some("<x>{{ page.content }}</x>"));
    let out = built(complete_site_page(source, &on(), &layouts), &empty_site(), &on(), &layouts);
    assert_eq!(out.path, "feed.xml");
    assert_eq!(out.content, "<x>body</x>");
}

#[test]
fn layout_without_extension_keeps_the_path() {
    let out = apply_layout(page("a.html", "b"), "plain", Ok("w".to_string())).unwrap();
    assert_eq!(out.path, "a.html");
    assert_eq!(out.content, "w");
    let dotted = apply_layout(page("a.html", "b"), "plain.", Ok("w".to_string())).unwrap();
    assert_eq!(dotted.path, "a.html");
}

#[test]
fn missing_layout_leaves_the_page() {
    let source = page_with_layout("a.html", "body", liquid::model::Value::scalar("gone.html"));
    let layouts = layout("gone.html", None);
    let state = complete_site_page(source, &on(), &layouts);
    assert!(state.request(&empty_site()).is_none());
    let out = state.outcome().unwrap().unwrap();
    assert_eq!(out.path, "a.html");
    assert_eq!(out.content, "body");
}

#[test]
fn layout_text_is_ignored_without_a_layout_name() {
    let layouts = layout("base.html", Some("wrapped"));
    let state = complete_site_page(page("a.html", "body"), &on(), &layouts);
    assert!(state.request(&empty_site()).is_none());
    let out = state.outcome().unwrap().unwrap();
    assert_eq!(out.content, "body");
}

#[test]
fn layout_is_not_chained() {
    let source = page_with_layout("a.html", "body", liquid::model::Value::scalar("base.html"));
    let text = "---\nlayout = \"outer.html\"\n---\n[{{ page.content }}]";
    let layouts = vec![
        Layout { name: "base.html".into(), text: Some(text.to_string()) },
        Layout { name: "outer.html".into(), text: Some("OUTER".into()) },
    ];
    let state = complete_site_page(source, &on(), &layouts);
    match state.request(&empty_site()) {
        Some(Request::Render { template, .. }) => assert_eq!(template, text),
        other => panic!("{:?}", other),
    }
    let out = built(state, &empty_site(), &on(), &layouts);
    assert_eq!(out.content, text.replace("{{ page.content }}", "body"));
    assert_eq!(layout_of(&out, &on()), Some("base.html".to_string()));
}

#[test]
fn broken_layout_ends_the_build() {
    let source = page_with_layout("a.html", "body", liquid::model::Value::scalar("base.html"));
    let layouts = layout("base.html", Some("{% nope %}"));
    let failure = failed(complete_site_page(source, &on(), &layouts), &empty_site(), &on(), &layouts);
    assert!(matches!(failure, BuildError::Layout { .. }));
    assert_eq!(failure.page(), "a.html");
}

#[test]
fn markdown_page_is_rendered_on_the_spot() {
    let out = mark_down(page("post.md", "*hi*"), &on());
    assert_eq!(out.path, "post.html");
    assert_eq!(out.content, "<p><em>hi</em></p>\n");
}

#[test]
fn build_waits_stage_by_stage() {
    let source = page_with_layout("a.md", "*{{ page.path }}*", liquid::model::Value::scalar("base.html"));
    let site = Site { pages: vec![source.duplicate()], files: Vec::new(), data: Vec::new() };
    let layouts = layout("base.html", Some("[{{ page.content }}]"));
    let first = build_site_page(source, &on(), &layouts);
    assert!(matches!(first, PageBuild::Templating(_)));
    match first.request(&site) {
        Some(Request::Render { template, globals }) => {
            assert_eq!(template, "*{{ page.path }}*");
            assert_eq!(globals.len(), 2);
        },
        other => panic!("{:?}", other),
    }
    let second = first.step(Answer::Rendered(Ok("*t*".to_string())), &on(), &layouts);
    match &second {
        PageBuild::LayingOut { page, layout, text } => {
            assert_eq!(page.path, "a.html");
            assert_eq!(page.content, "<p><em>t</em></p>\n");
            assert_eq!(layout, "base.html");
            assert_eq!(text, "[{{ page.content }}]");
        },
        other => panic!("{:?}", other),
    }
    let third = second.step(Answer::Rendered(Ok("wrapped".to_string())), &on(), &layouts);
    let out = third.outcome().unwrap().unwrap();
    assert_eq!(out.path, "a.html");
    assert_eq!(out.content, "wrapped");
}

#[test]
fn answer_that_is_not_waited_for_changes_nothing() {
    let state = build_site_page(page("a.scss", "a{b:c}"), &on(), &none());
    let same = state.step(Answer::Compiled(Ok("x".to_string())), &on(), &none());
    match &same {
        PageBuild::Templating(waiting) => assert_eq!(waiting.content, "a{b:c}"),
        other => panic!("{:?}", other),
    }
    let styling = same.step(Answer::Rendered(Ok("a{b:d}".to_string())), &on(), &none());
    assert!(matches!(styling, PageBuild::Styling(_)));
    let still = styling.step(Answer::Rendered(Ok("y".to_string())), &on(), &none());
    assert!(matches!(still, PageBuild::Styling(_)));
    let done = still.step(Answer::Compiled(Ok("a{b:d}".to_string())), &on(), &none());
    let after = done.step(Answer::Rendered(Ok("z".to_string())), &on(), &none());
    let out = after.outcome().unwrap().unwrap();
    assert_eq!(out.path, "a.css");
    assert_eq!(out.content, "a{b:d}");
}

#[test]
fn sanitizer_runs_behind_the_layout() {
    let mut sanitizing = on();
    sanitizing.sanitizer = true;
    let source = page_with_layout("a.md", "x", liquid::model::Value::scalar("base.html"));
    let layouts = layout("base.html", Some("<div>{{ page.content }}</div><script>y()</script>"));
    let out = built(build_site_page(source, &sanitizing, &layouts), &empty_site(), &sanitizing, &layouts);
    assert_eq!(out.content, "<div><p>x</p>\n</div>");
}
