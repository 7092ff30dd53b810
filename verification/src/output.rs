//! The output of a build: which plain files are carried over beside the
//! pages.
//!
//! The pages are written first, each to its path. A plain file is carried
//! over under its own name, unless that place is taken: by a page, or by a
//! plain file of the same name that came before it.

use vstd::prelude::*;
use crate::page::{Page, PageView};

verus! {

/// Whether a page is written to the given path.
pub open spec fn is_shadowed(name: Seq<char>, pages: Seq<PageView>) -> bool {
    exists|i: int| 0 <= i < pages.len() && (#[trigger] pages[i]).path == name
}

/// The plain files that are carried over, in the order of the files: those
/// whose name no page is written to and no earlier plain file has.
pub open spec fn propagated(files: Seq<Seq<char>>, pages: Seq<PageView>) -> Seq<Seq<char>>
    decreases files.len(),
{
    if files.len() == 0 {
        Seq::empty()
    } else {
        let before = propagated(files.drop_last(), pages);
        if is_shadowed(files.last(), pages) || before.contains(files.last()) {
            before
        } else {
            before.push(files.last())
        }
    }
}

/// The views of pages.
pub open spec fn page_views(pages: Seq<Page>) -> Seq<PageView> {
    Seq::new(pages.len(), |i: int| pages[i]@)
}

/// The views of names.
pub open spec fn name_views(names: Seq<String>) -> Seq<Seq<char>> {
    Seq::new(names.len(), |i: int| names[i]@)
}

/// Whether a page is written to the given path.
pub fn shadows(pages: &Vec<Page>, name: &String) -> (taken: bool)
    ensures
        taken == is_shadowed(name@, page_views(pages@)),
{
    let ghost all = page_views(pages@);
    let mut i: usize = 0;
    while i < pages.len()
        invariant
            i <= pages.len(),
            all == page_views(pages@),
            forall|k: int| 0 <= k < i ==> (#[trigger] all[k]).path != name@,
        decreases pages.len() - i,
    {
        if pages[i].path == *name {
            assert(all[i as int].path == name@);
            return true;
        }
        i = i + 1;
    }
    false
}

/// Whether one of the names is the given name.
fn has_name(names: &Vec<String>, name: &String) -> (found: bool)
    ensures
        found == name_views(names@).contains(name@),
{
    let ghost all = name_views(names@);
    let mut i: usize = 0;
    while i < names.len()
        invariant
            i <= names.len(),
            all == name_views(names@),
            forall|k: int| 0 <= k < i ==> #[trigger] all[k] != name@,
        decreases names.len() - i,
    {
        if names[i] == *name {
            assert(all[i as int] == name@);
            return true;
        }
        i = i + 1;
    }
    false
}

/// The plain files to carry over from the input directory to the output
/// directory, once the pages are written.
pub fn propagated_files(files: &Vec<String>, pages: &Vec<Page>) -> (kept: Vec<String>)
    ensures
        name_views(kept@) == propagated(name_views(files@), page_views(pages@)),
{
    let ghost all = name_views(files@);
    let ghost written = page_views(pages@);
    let mut kept: Vec<String> = Vec::new();
    let mut i: usize = 0;
    while i < files.len()
        invariant
            i <= files.len(),
            all == name_views(files@),
            written == page_views(pages@),
            name_views(kept@) =~= propagated(all.take(i as int), written),
        decreases files.len() - i,
    {
        proof {
            assert(all.take(i + 1).drop_last() =~= all.take(i as int));
            assert(all.take(i + 1).last() == files@[i as int]@);
        }
        let name = &files[i];
        if !shadows(pages, name) && !has_name(&kept, name) {
            let ghost before = name_views(kept@);
            kept.push(name.clone());
            assert(name_views(kept@) =~= before.push(name@));
        }
        i = i + 1;
    }
    proof {
        assert(all.take(files@.len() as int) =~= all);
    }
    kept
}

} // verus!
