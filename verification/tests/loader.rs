use site_builder::builder::Renderers;
use site_builder::frontmatter::{is_page_source, split_frontmatter};
use site_builder::loader::{create_page, load_site, read_data, Source};

fn all_on() -> Renderers {
    Renderers { data: true, liquid: true, sass: true, markdown: true, sanitizer: false, layout: true }
}

fn text_of(value: &liquid::model::Value) -> String {
    value.clone().into_scalar().unwrap().into_string().into_string()
}

fn defaults() -> liquid::Object {
    let mut object = liquid::Object::new();
    object.insert("title".into(), liquid::model::Value::scalar("Default"));
    object.insert("author".into(), liquid::model::Value::scalar("Nobody"));
    object
}

#[test]
fn frontmatter_block_and_body_are_parted() {
    let parts = split_frontmatter("---\ntitle = \"Hi\"\nlayout = \"base.html\"\n---\n# Hello\n").unwrap();
    assert_eq!(parts.block, "title = \"Hi\"\nlayout = \"base.html\"");
    assert_eq!(parts.body, "# Hello\n");
}

#[test]
fn frontmatter_lines_lose_their_carriage_returns() {
    let parts = split_frontmatter("---\r\na = 1\r\nb = 2\r\n---\r\nbody").unwrap();
    assert_eq!(parts.block, "a = 1\nb = 2");
    assert_eq!(parts.body, "body");
}

#[test]
fn text_without_terminator_is_no_page_source() {
    assert!(split_frontmatter("just some text\nwith lines\n").is_none());
    assert!(split_frontmatter("").is_none());
    assert!(split_frontmatter("---\nopened = true\n").is_none());
}

#[test]
fn terminator_without_body_is_a_page_source_with_empty_content() {
    let parts = split_frontmatter("---\na = 1\n---\n").unwrap();
    assert_eq!(parts.block, "a = 1");
    assert_eq!(parts.body, "");
    let bare = split_frontmatter("---\na = 1\n---").unwrap();
    assert_eq!(bare.block, "a = 1");
    assert_eq!(bare.body, "---");
    assert!(is_page_source("---\n---\n"));
    assert!(!is_page_source("---\n"));
    assert!(!is_page_source("---"));
    assert!(!is_page_source("a---b"));
}

#[test]
fn source_without_text_is_a_plain_file() {
    let sources = vec![
        Source { name: "logo.png".into(), text: None },
        Source { name: "a.md".into(), text: Some("---\n---\nA".into()) },
    ];
    let site = load_site(&sources, &Vec::new(), &defaults(), &all_on());
    assert_eq!(site.files, vec!["logo.png".to_string()]);
    assert_eq!(site.pages.len(), 1);
    let mut off = all_on();
    off.liquid = false;
    let plain = load_site(&sources, &Vec::new(), &defaults(), &off);
    assert_eq!(plain.files, vec!["logo.png".to_string()]);
    assert_eq!(plain.pages.len(), 1);
    assert_eq!(plain.pages[0].content, "---\n---\nA");
}

#[test]
fn page_with_empty_content_is_loaded() {
    let page = create_page("a.md", "---\nx = 1\n---\n", &defaults(), &all_on()).unwrap();
    assert_eq!(page.content, "");
    assert!(page.data.contains_key("x"));
}

#[test]
fn last_line_terminator_without_line_break_is_the_body() {
    let parts = split_frontmatter("first\n---").unwrap();
    assert_eq!(parts.block, "");
    assert_eq!(parts.body, "---");
}

#[test]
fn rendered_output_is_not_taken_for_a_page_again() {
    let html = "<html><h1>Hello Hi</h1>\n<p>no rule here</p>\n</html>";
    assert!(!html.contains("---"));
    assert!(create_page("post.html", html, &defaults(), &all_on()).is_none());
}

#[test]
fn frontmatter_wins_over_defaults() {
    let page = create_page("a.md", "---\ntitle = \"Own\"\n---\nbody", &defaults(), &all_on()).unwrap();
    assert_eq!(page.path, "a.md");
    assert_eq!(page.content, "body");
    assert_eq!(text_of(page.data.get("title").unwrap()), "Own");
    assert_eq!(text_of(page.data.get("author").unwrap()), "Nobody");
    assert_eq!(page.data.len(), 2);
}

#[test]
fn unparseable_frontmatter_overrides_nothing() {
    let page = create_page("a.md", "---\nthis is = = not toml\n---\nbody", &defaults(), &all_on()).unwrap();
    assert_eq!(page.content, "body");
    assert_eq!(text_of(page.data.get("title").unwrap()), "Default");
    assert_eq!(page.data.len(), 2);
}

#[test]
fn file_without_frontmatter_is_no_page() {
    assert!(create_page("style.css", "a { b: c }", &defaults(), &all_on()).is_none());
}

#[test]
fn with_templates_off_every_file_is_a_page_with_its_whole_text() {
    let mut renderers = all_on();
    renderers.liquid = false;
    let text = "---\ntitle = \"Own\"\n---\nbody";
    let page = create_page("a.md", text, &defaults(), &renderers).unwrap();
    assert_eq!(page.content, text);
    assert_eq!(text_of(page.data.get("title").unwrap()), "Default");
    let empty = create_page("empty.txt", "", &defaults(), &renderers).unwrap();
    assert_eq!(empty.content, "");
}

#[test]
fn data_record_is_read_from_toml() {
    let record = read_data("name = \"site\"\ncount = 3\n").unwrap();
    assert_eq!(text_of(record.get("name").unwrap()), "site");
    assert_eq!(text_of(record.get("count").unwrap()), "3");
    assert!(read_data("not = = toml").is_none());
}

#[test]
fn site_keeps_pages_plain_files_and_data_in_order() {
    let sources = vec![
        Source { name: "b.md".into(), text: Some("---\n---\nB".into()) },
        Source { name: "logo.svg".into(), text: Some("<svg/>".into()) },
        Source { name: "a.md".into(), text: Some("---\nx = 1\n---\nA".into()) },
        Source { name: "notes.txt".into(), text: Some("plain".into()) },
    ];
    let data = vec!["n = 1".to_string(), "broken = = ".to_string(), "n = 3".to_string()];
    let site = load_site(&sources, &data, &liquid::Object::new(), &all_on());
    let paths: Vec<&str> = site.pages.iter().map(|p| p.path.as_str()).collect();
    assert_eq!(paths, vec!["b.md", "a.md"]);
    assert_eq!(site.files, vec!["logo.svg".to_string(), "notes.txt".to_string()]);
    assert_eq!(site.data.len(), 2);
    assert_eq!(text_of(site.data[0].get("n").unwrap()), "1");
    assert_eq!(text_of(site.data[1].get("n").unwrap()), "3");
}

#[test]
fn data_is_not_loaded_with_data_off() {
    let mut renderers = all_on();
    renderers.data = false;
    let site = load_site(&Vec::new(), &vec!["n = 1".to_string()], &liquid::Object::new(), &renderers);
    assert!(site.data.is_empty());
}
