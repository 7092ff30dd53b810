//! Pages and the site snapshot, and the values under which a template sees
//! them.

use vstd::prelude::*;
use crate::vars::{
    array_value, object_entries, object_insert, object_new, object_value, text_value,
    value_of_array, value_of_object, value_of_text, Entries,
};

verus! {

/// A page on its way through the build. `path` is the output path, relative
/// to the output directory; its extension is that of what `content` holds at
/// the moment. `data` holds the default variables overlaid with the page's
/// frontmatter.
#[derive(Clone, Debug)]
pub struct Page {
    pub path: String,
    pub data: liquid::Object,
    pub content: String,
}

/// What a page holds.
pub struct PageView {
    pub path: Seq<char>,
    pub data: Entries,
    pub content: Seq<char>,
}

impl View for Page {
    type V = PageView;

    open spec fn view(&self) -> PageView {
        PageView { path: self.path@, data: object_entries(self.data), content: self.content@ }
    }
}

impl Page {
    /// A copy of the page that holds what the page holds.
    pub fn duplicate(&self) -> (copy: Page)
        ensures
            copy@ == self@,
    {
        Page { path: self.path.clone(), data: self.data.clone(), content: self.content.clone() }
    }
}

/// The snapshot of a site: every page as it was loaded, the names of the
/// plain files, and the data records. It is made once, when all sources are
/// loaded, and only read afterwards.
#[derive(Clone, Debug)]
pub struct Site {
    pub pages: Vec<Page>,
    pub files: Vec<String>,
    pub data: Vec<liquid::Object>,
}

/// What a site holds.
pub struct SiteView {
    pub pages: Seq<PageView>,
    pub files: Seq<Seq<char>>,
    pub data: Seq<Entries>,
}

impl View for Site {
    type V = SiteView;

    open spec fn view(&self) -> SiteView {
        SiteView {
            pages: Seq::new(self.pages@.len(), |i: int| self.pages@[i]@),
            files: Seq::new(self.files@.len(), |i: int| self.files@[i]@),
            data: Seq::new(self.data@.len(), |i: int| object_entries(self.data@[i])),
        }
    }
}

/// The value under which a template sees a page: an object with the keys
/// `path`, `data` and `content`.
pub open spec fn page_value(page: PageView) -> liquid::model::Value {
    object_value(
        Entries::empty().insert(seq!['p', 'a', 't', 'h'], text_value(page.path)).insert(
            seq!['d', 'a', 't', 'a'],
            object_value(page.data),
        ).insert(seq!['c', 'o', 'n', 't', 'e', 'n', 't'], text_value(page.content)),
    )
}

/// The value under which a template sees the site: an object with the keys
/// `pages`, `files` and `data`, each an array in the order of the snapshot.
pub open spec fn site_value(site: SiteView) -> liquid::model::Value {
    object_value(
        Entries::empty().insert(
            seq!['p', 'a', 'g', 'e', 's'],
            array_value(Seq::new(site.pages.len(), |i: int| page_value(site.pages[i]))),
        ).insert(
            seq!['f', 'i', 'l', 'e', 's'],
            array_value(Seq::new(site.files.len(), |i: int| text_value(site.files[i]))),
        ).insert(
            seq!['d', 'a', 't', 'a'],
            array_value(Seq::new(site.data.len(), |i: int| object_value(site.data[i]))),
        ),
    )
}

/// The variables a template is rendered with: `site`, the snapshot, and
/// `page`, the page that is being rendered.
pub open spec fn render_globals(page: PageView, site: SiteView) -> Entries {
    Entries::empty().insert(seq!['s', 'i', 't', 'e'], site_value(site)).insert(
        seq!['p', 'a', 'g', 'e'],
        page_value(page),
    )
}

/// Builds the value under which a template sees `page`.
pub fn value_of_page(page: &Page) -> (value: liquid::model::Value)
    ensures
        value == page_value(page@),
{
    proof {
        reveal_strlit("path");
        reveal_strlit("data");
        reveal_strlit("content");
        assert("path"@ =~= seq!['p', 'a', 't', 'h']);
        assert("data"@ =~= seq!['d', 'a', 't', 'a']);
        assert("content"@ =~= seq!['c', 'o', 'n', 't', 'e', 'n', 't']);
    }
    let mut object = object_new();
    object_insert(&mut object, "path", value_of_text(page.path.as_str()));
    object_insert(&mut object, "data", value_of_object(&page.data));
    object_insert(&mut object, "content", value_of_text(page.content.as_str()));
    value_of_object(&object)
}

/// Builds the value under which a template sees the snapshot.
pub fn value_of_site(site: &Site) -> (value: liquid::model::Value)
    ensures
        value == site_value(site@),
{
    let mut pages: Vec<liquid::model::Value> = Vec::new();
    let mut i: usize = 0;
    while i < site.pages.len()
        invariant
            i <= site.pages.len(),
            pages@ =~= Seq::new(i as nat, |k: int| page_value(site@.pages[k])),
        decreases site.pages.len() - i,
    {
        pages.push(value_of_page(&site.pages[i]));
        i = i + 1;
    }
    let mut files: Vec<liquid::model::Value> = Vec::new();
    let mut j: usize = 0;
    while j < site.files.len()
        invariant
            j <= site.files.len(),
            files@ =~= Seq::new(j as nat, |k: int| text_value(site@.files[k])),
        decreases site.files.len() - j,
    {
        files.push(value_of_text(site.files[j].as_str()));
        j = j + 1;
    }
    let mut data: Vec<liquid::model::Value> = Vec::new();
    let mut k: usize = 0;
    while k < site.data.len()
        invariant
            k <= site.data.len(),
            data@ =~= Seq::new(k as nat, |n: int| object_value(site@.data[n])),
        decreases site.data.len() - k,
    {
        data.push(value_of_object(&site.data[k]));
        k = k + 1;
    }
    proof {
        reveal_strlit("pages");
        reveal_strlit("files");
        reveal_strlit("data");
        assert("pages"@ =~= seq!['p', 'a', 'g', 'e', 's']);
        assert("files"@ =~= seq!['f', 'i', 'l', 'e', 's']);
        assert("data"@ =~= seq!['d', 'a', 't', 'a']);
        assert(pages@ =~= Seq::new(site@.pages.len(), |i: int| page_value(site@.pages[i])));
        assert(files@ =~= Seq::new(site@.files.len(), |i: int| text_value(site@.files[i])));
        assert(data@ =~= Seq::new(site@.data.len(), |i: int| object_value(site@.data[i])));
    }
    let mut object = object_new();
    object_insert(&mut object, "pages", value_of_array(pages));
    object_insert(&mut object, "files", value_of_array(files));
    object_insert(&mut object, "data", value_of_array(data));
    value_of_object(&object)
}

/// Builds the variables that `page` is rendered with: what is handed to
/// the template engine with every template of the page.
pub fn globals_of(page: &Page, site: &Site) -> (globals: liquid::Object)
    ensures
        object_entries(globals) == render_globals(page@, site@),
{
    proof {
        reveal_strlit("site");
        reveal_strlit("page");
        assert("site"@ =~= seq!['s', 'i', 't', 'e']);
        assert("page"@ =~= seq!['p', 'a', 'g', 'e']);
    }
    let mut globals = object_new();
    object_insert(&mut globals, "site", value_of_site(site));
    object_insert(&mut globals, "page", value_of_page(page));
    globals
}

} // verus!
