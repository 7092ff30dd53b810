//! The frontmatter block at the head of a source file.
//!
//! A block ends at the first line that begins with the terminator and is not
//! the first line of the text. The line that opens the block and the line of
//! the terminator belong neither to the block nor to the body behind it.

use vstd::prelude::*;
use crate::names::chars_of;

verus! {

/// Whether `pattern` stands in `text` at index `at`.
pub open spec fn occurs_at(text: Seq<char>, pattern: Seq<char>, at: int) -> bool {
    &&& 0 <= at
    &&& at + pattern.len() <= text.len()
    &&& text.subrange(at, at + pattern.len()) == pattern
}

/// The least index not below `from` at which `pattern` stands in `text`, or
/// -1 where there is none. An empty pattern stands everywhere, the end of
/// the text included.
pub open spec fn find_from(text: Seq<char>, pattern: Seq<char>, from: int) -> int
    decreases text.len() - from,
    via find_from_ends
{
    if from < 0 || from + pattern.len() > text.len() {
        -1
    } else if occurs_at(text, pattern, from) {
        from
    } else {
        find_from(text, pattern, from + 1)
    }
}

/// The search goes on only before the end of the text: at the end nothing
/// but the empty pattern fits, and it stands there.
#[via_fn]
proof fn find_from_ends(text: Seq<char>, pattern: Seq<char>, from: int) {
    if 0 <= from && from + pattern.len() <= text.len() && from >= text.len() {
        assert(text.subrange(from, from + pattern.len()) =~= pattern);
    }
}

/// The least index at which `pattern` stands in `text`, or -1.
pub open spec fn find(text: Seq<char>, pattern: Seq<char>) -> int {
    find_from(text, pattern, 0)
}

/// A line break followed by the terminator: what ends a block.
pub open spec fn block_end(terminator: Seq<char>) -> Seq<char> {
    seq!['\n'] + terminator
}

/// The length of the head of `text` that holds the block: up to and with the
/// line break before the terminator, or all of `text` where no line after
/// the first begins with the terminator.
pub open spec fn head_len(text: Seq<char>, terminator: Seq<char>) -> int {
    let at = find(text, block_end(terminator));
    if at >= 0 {
        at + 1
    } else {
        text.len() as int
    }
}

/// What follows the line of the terminator; where that line is the last and
/// has no line break, the line itself; nothing where there is no terminator.
pub open spec fn body_of(text: Seq<char>, terminator: Seq<char>) -> Seq<char> {
    let rest = text.skip(head_len(text, terminator));
    let line_end = find(rest, seq!['\n']);
    if line_end >= 0 {
        rest.skip(line_end + 1)
    } else {
        rest
    }
}

/// A line without the carriage return that stood before its line break.
pub open spec fn without_return(line: Seq<char>) -> Seq<char> {
    if line.len() > 0 && line.last() == '\r' {
        line.drop_last()
    } else {
        line
    }
}

/// The lines of a text. A line ends at a line break, or at a carriage return
/// and a line break; neither belongs to the line. A last line need not end
/// in a line break, and an empty text has no line.
pub open spec fn lines_of(text: Seq<char>) -> Seq<Seq<char>>
    decreases text.len(),
{
    let line_end = find(text, seq!['\n']);
    if text.len() == 0 {
        Seq::empty()
    } else if line_end < 0 || line_end >= text.len() {
        seq![text]
    } else {
        seq![without_return(text.take(line_end))] + lines_of(text.skip(line_end + 1))
    }
}

/// The lines but the first.
pub open spec fn after_first(lines: Seq<Seq<char>>) -> Seq<Seq<char>> {
    if lines.len() == 0 {
        lines
    } else {
        lines.skip(1)
    }
}

/// The lines with a line break between each two.
pub open spec fn joined(lines: Seq<Seq<char>>) -> Seq<char>
    decreases lines.len(),
{
    if lines.len() == 0 {
        Seq::empty()
    } else if lines.len() == 1 {
        lines[0]
    } else {
        lines[0] + seq!['\n'] + joined(lines.skip(1))
    }
}

/// The block: the lines of the head but the first, joined by line breaks.
pub open spec fn block_of(text: Seq<char>, terminator: Seq<char>) -> Seq<char> {
    joined(after_first(lines_of(text.take(head_len(text, terminator)))))
}

/// `extract_frontmatter::Extractor::remove` after `select_by_terminator`:
/// the text behind the line of the terminator, as `body_of` states it.
#[verifier::external_body]
pub(crate) fn remove_frontmatter(text: &str, terminator: &str) -> (body: String)
    ensures
        body@ == body_of(text@, terminator@),
{
    let mut extractor = extract_frontmatter::Extractor::new(text);
    extractor.select_by_terminator(terminator);
    extractor.remove().to_owned()
}

/// `extract_frontmatter::Extractor::extract` after `select_by_terminator`
/// and `discard_first_line`: the lines before the terminator but the first,
/// as `block_of` states them.
#[verifier::external_body]
pub(crate) fn extract_frontmatter(text: &str, terminator: &str) -> (block: String)
    ensures
        block@ == block_of(text@, terminator@),
{
    let mut extractor = extract_frontmatter::Extractor::new(text);
    extractor.select_by_terminator(terminator);
    extractor.discard_first_line();
    extractor.extract()
}

/// The terminator of a frontmatter block.
pub open spec fn terminator() -> Seq<char> {
    seq!['-', '-', '-']
}

/// Whether a text is a page source: a line behind its first begins with
/// the terminator. What follows that line is the content of the page, and
/// may be empty.
pub open spec fn has_frontmatter(text: Seq<char>) -> bool {
    find(text, block_end(terminator())) >= 0
}

/// Whether a line break followed by the terminator stands at `at`.
fn block_ends_at(chars: &Vec<char>, at: usize) -> (ends: bool)
    requires
        at + 4 <= chars@.len(),
    ensures
        ends == occurs_at(chars@, block_end(terminator()), at as int),
{
    let len: usize = chars.len();
    let ends = chars[at] == '\n' && chars[at + 1] == '-' && chars[at + 2] == '-' && chars[at + 3]
        == '-';
    proof {
        let pattern = block_end(terminator());
        let found = chars@.subrange(at as int, at + 4);
        assert(pattern =~= seq!['\n', '-', '-', '-']);
        if ends {
            assert(found =~= pattern);
        } else {
            assert(found[0] == chars@[at as int]);
            assert(found[1] == chars@[at + 1]);
            assert(found[2] == chars@[at + 2]);
            assert(found[3] == chars@[at + 3]);
        }
    }
    ends
}

/// Whether a text is a page source.
pub fn is_page_source(text: &str) -> (found: bool)
    ensures
        found == has_frontmatter(text@),
{
    let chars = chars_of(text);
    let ghost pattern = block_end(terminator());
    assert(pattern.len() == 4);
    let len: usize = chars.len();
    let mut at: usize = 0;
    while len >= 4 && at <= len - 4
        invariant
            chars@ == text@,
            len == chars@.len(),
            pattern == block_end(terminator()),
            pattern.len() == 4,
            forall|i: int| 0 <= i < at ==> !occurs_at(chars@, pattern, i),
        decreases len - at,
    {
        if block_ends_at(&chars, at) {
            proof {
                lemma_find_from(chars@, pattern, 0);
            }
            return true;
        }
        at = at + 1;
    }
    proof {
        lemma_find_from(chars@, pattern, 0);
    }
    false
}

/// A source text parted into its frontmatter block and its body.
pub struct Frontmatter {
    pub block: String,
    pub body: String,
}

/// Parts a source text into block and body; `None` where the text is no page
/// source.
pub fn split_frontmatter(text: &str) -> (parts: Option<Frontmatter>)
    ensures
        match parts {
            Some(found) => {
                &&& has_frontmatter(text@)
                &&& found.block@ == block_of(text@, terminator())
                &&& found.body@ == body_of(text@, terminator())
            },
            None => !has_frontmatter(text@),
        },
{
    proof {
        reveal_strlit("---");
        assert("---"@ =~= terminator());
    }
    if !is_page_source(text) {
        return None;
    }
    let body = remove_frontmatter(text, "---");
    let block = extract_frontmatter(text, "---");
    Some(Frontmatter { block, body })
}

/// `find_from` answers with a place where the pattern stands, and passes
/// over none.
pub proof fn lemma_find_from(text: Seq<char>, pattern: Seq<char>, from: int)
    requires
        0 <= from,
    ensures
        find_from(text, pattern, from) == -1 || (from <= find_from(text, pattern, from)
            && occurs_at(text, pattern, find_from(text, pattern, from))),
        forall|i: int|
            from <= i && (find_from(text, pattern, from) == -1 || i < find_from(
                text,
                pattern,
                from,
            )) ==> !occurs_at(text, pattern, i),
    decreases text.len() - from,
{
    if from + pattern.len() <= text.len() && !occurs_at(text, pattern, from) {
        if from >= text.len() {
            assert(text.subrange(from, from + pattern.len()) =~= pattern);
        }
        lemma_find_from(text, pattern, from + 1);
    }
}

/// A text in which no line break is followed by the terminator is no page
/// source, and has no body.
pub proof fn lemma_no_terminator_no_body(text: Seq<char>)
    requires
        forall|i: int| !occurs_at(text, block_end(terminator()), i),
    ensures
        !has_frontmatter(text),
        body_of(text, terminator()).len() == 0,
{
    lemma_find_from(text, block_end(terminator()), 0);
    assert(find(text, block_end(terminator())) == -1);
    let rest = text.skip(text.len() as int);
    assert(rest.len() == 0);
    assert(find(rest, seq!['\n']) == -1);
}

} // verus!
