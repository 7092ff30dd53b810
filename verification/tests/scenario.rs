use site_builder::builder::Renderers;
use site_builder::error::BuildError;
use site_builder::loader::{load_site, Source};
use site_builder::markup::CssStyle;
use site_builder::output::propagated_files;
use site_builder::page::{Page, Site};
use site_builder::pipeline::{
    build_site_page, gather_pages, standalone_pages, wanted_layouts, Answer, Layout, PageBuild,
    Request,
};
use site_builder::template::load_partials;

fn answer_scenario(request: Request, partials: &liquid::partials::InMemorySource) -> Answer {
    match request {
        Request::Render { template, globals } => {
            let compiler = liquid::partials::LazyCompiler::new(partials.clone());
            Answer::Rendered(
                liquid::ParserBuilder::with_stdlib()
                    .partials(compiler)
                    .build()
                    .and_then(|parser| parser.parse(&template))
                    .and_then(|parsed| parsed.render(&globals)),
            )
        },
        Request::Compile { source, style } => {
            let style = match style {
                CssStyle::Expanded => grass::OutputStyle::Expanded,
                CssStyle::Compressed => grass::OutputStyle::Compressed,
            };
            Answer::Compiled(grass::from_string(source, &grass::Options::default().style(style)))
        },
    }
}

fn drive_scenario(
    mut state: PageBuild,
    site: &Site,
    renderers: &Renderers,
    layouts: &Vec<Layout>,
    partials: &liquid::partials::InMemorySource,
) -> Result<Page, BuildError> {
    while let Some(request) = state.request(site) {
        state = state.step(answer_scenario(request, partials), renderers, layouts);
    }
    state.outcome().unwrap()
}

fn build_all_scenario(
    site: &Site,
    renderers: &Renderers,
    partials: &liquid::partials::InMemorySource,
    layouts: &Vec<Layout>,
    fragments: Option<&str>,
) -> Result<Vec<Page>, BuildError> {
    let ends = standalone_pages(site, fragments)
        .into_iter()
        .map(|page| drive_scenario(build_site_page(page, renderers, layouts), site, renderers, layouts, partials))
        .collect();
    gather_pages(ends)
}

fn source(name: &str, text: &str) -> Source {
    Source { name: name.to_string(), text: Some(text.to_string()) }
}

#[test]
fn post_is_rendered_and_wrapped_in_its_layout() {
    let renderers = Renderers {
        data: true,
        liquid: true,
        sass: true,
        markdown: true,
        sanitizer: false,
        layout: true,
    };
    let sources = vec![source(
        "post.md",
        "---\ntitle = \"Hi\"\nlayout = \"base.html\"\n---\n# Hello {{ page.data.title }}",
    )];
    let defaults = liquid::Object::new();
    let site = load_site(&sources, &Vec::new(), &defaults, &renderers);
    assert_eq!(site.pages.len(), 1);
    assert!(site.files.is_empty());
    let names = wanted_layouts(&site, &renderers);
    assert_eq!(names, vec!["base.html".to_string()]);
    let layouts = vec![Layout {
        name: "base.html".to_string(),
        text: Some("<html>{{ page.content }}</html>".to_string()),
    }];
    let partials = load_partials(&Vec::new(), &renderers);
    let pages = build_all_scenario(&site, &renderers, &partials, &layouts, None).unwrap();
    assert_eq!(pages.len(), 1);
    assert_eq!(pages[0].path, "post.html");
    let body = site_builder::markup::render_markdown("# Hello Hi", &renderers);
    assert!(body.starts_with("<h1>"));
    assert!(body.ends_with("Hello Hi</h1>\n"));
    assert_eq!(pages[0].content, format!("<html>{}</html>", body));
    assert!(propagated_files(&site.files, &pages).is_empty());
}
