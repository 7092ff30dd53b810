//! File names inside an output path: the final name, its stem and its
//! extension.
//!
//! A path is a string of names separated by `/`. Its file name is what
//! follows the last `/`. The extension of a file name is what follows its
//! last `.`, unless that `.` is the first character of the name.

use vstd::prelude::*;

verus! {

/// The greatest index at which `c` stands in `s`, or -1 where it stands
/// nowhere.
pub open spec fn last_index_of(s: Seq<char>, c: char) -> int
    decreases s.len(),
{
    if s.len() == 0 {
        -1
    } else if s.last() == c {
        s.len() - 1
    } else {
        last_index_of(s.drop_last(), c)
    }
}

/// Whether `c` stands somewhere in `s`.
pub open spec fn has_char(s: Seq<char>, c: char) -> bool {
    exists|i: int| 0 <= i < s.len() && s[i] == c
}

/// Where the file name of a path begins.
pub open spec fn file_name_start(path: Seq<char>) -> int {
    last_index_of(path, '/') + 1
}

/// The file name of a path: what follows its last `/`.
pub open spec fn file_name(path: Seq<char>) -> Seq<char> {
    path.skip(file_name_start(path))
}

/// Whether a name can name a file: it is not empty, and neither `.` nor `..`.
pub open spec fn names_file(name: Seq<char>) -> bool {
    name.len() > 0 && name != seq!['.'] && name != seq!['.', '.']
}

/// The length of the stem of a file name: the name up to its last `.`, or
/// the whole name where it has no `.` after its first character.
pub open spec fn stem_len(name: Seq<char>) -> int {
    let dot = last_index_of(name, '.');
    if dot <= 0 {
        name.len() as int
    } else {
        dot
    }
}

/// The stem of the file name of a path.
pub open spec fn file_stem(path: Seq<char>) -> Option<Seq<char>> {
    let name = file_name(path);
    if names_file(name) {
        Some(name.take(stem_len(name)))
    } else {
        None
    }
}

/// The extension of the file name of a path, without its `.`.
pub open spec fn extension(path: Seq<char>) -> Option<Seq<char>> {
    let name = file_name(path);
    let dot = last_index_of(name, '.');
    if names_file(name) && dot > 0 {
        Some(name.skip(dot + 1))
    } else {
        None
    }
}

/// The path with the extension of its file name replaced by `ext`, or taken
/// away where `ext` is empty. A path without a file name stays as it is.
pub open spec fn with_extension(path: Seq<char>, ext: Seq<char>) -> Seq<char> {
    let name = file_name(path);
    if !names_file(name) {
        path
    } else {
        let kept = path.take(file_name_start(path) + stem_len(name));
        if ext.len() == 0 {
            kept
        } else {
            kept + seq!['.'] + ext
        }
    }
}

/// `last_index_of` is the one index that holds `c` with no `c` behind it.
pub proof fn lemma_last_index_of(s: Seq<char>, c: char)
    ensures
        -1 <= last_index_of(s, c) < s.len(),
        last_index_of(s, c) >= 0 ==> s[last_index_of(s, c)] == c,
        forall|j: int| last_index_of(s, c) < j < s.len() ==> s[j] != c,
    decreases s.len(),
{
    if s.len() > 0 && s.last() != c {
        let front = s.drop_last();
        lemma_last_index_of(front, c);
        assert forall|j: int| last_index_of(s, c) < j < s.len() implies s[j] != c by {
            if j < front.len() {
                assert(s[j] == front[j]);
            }
        }
    }
}

/// An index that holds `c`, with no `c` behind it, is `last_index_of`.
pub proof fn lemma_last_index_is(s: Seq<char>, c: char, i: int)
    requires
        -1 <= i < s.len(),
        i >= 0 ==> s[i] == c,
        forall|j: int| i < j < s.len() ==> s[j] != c,
    ensures
        last_index_of(s, c) == i,
{
    lemma_last_index_of(s, c);
}

/// Where `c` stands nowhere in the tail, the last `c` of `head + tail` is
/// the last `c` of `head`.
pub proof fn lemma_last_index_of_append(head: Seq<char>, tail: Seq<char>, c: char)
    requires
        !has_char(tail, c),
    ensures
        last_index_of(head + tail, c) == last_index_of(head, c),
{
    lemma_last_index_of(head, c);
    let whole = head + tail;
    let i = last_index_of(head, c);
    assert forall|j: int| i < j < whole.len() implies whole[j] != c by {
        if j >= head.len() {
            assert(whole[j] == tail[j - head.len()]);
        } else {
            assert(whole[j] == head[j]);
        }
    }
    if i >= 0 {
        assert(whole[i] == head[i]);
    }
    lemma_last_index_is(whole, c, i);
}

/// A path with a file name, given a new extension that is not empty and
/// holds neither `.` nor `/`, has that extension afterwards, and still has a
/// file name. An extension given after that takes the place of the first.
pub proof fn lemma_extension_is_set(path: Seq<char>, ext: Seq<char>)
    requires
        names_file(file_name(path)),
        ext.len() > 0,
        !has_char(ext, '.'),
        !has_char(ext, '/'),
    ensures
        extension(with_extension(path, ext)) == Some(ext),
        names_file(file_name(with_extension(path, ext))),
        forall|other: Seq<char>| #[trigger]
            with_extension(with_extension(path, ext), other) == with_extension(path, other),
{
    let name = file_name(path);
    let start = file_name_start(path);
    let stem = stem_len(name);
    lemma_last_index_of(path, '/');
    lemma_last_index_of(name, '.');
    let kept = path.take(start + stem);
    let tail = seq!['.'] + ext;
    let out = kept + tail;
    assert(out =~= with_extension(path, ext));
    assert(!has_char(tail, '/')) by {
        if has_char(tail, '/') {
            let i = choose|i: int| 0 <= i < tail.len() && tail[i] == '/';
            assert(i > 0);
            assert(ext[i - 1] == '/');
        }
    }
    assert forall|j: int| start - 1 < j < kept.len() implies kept[j] != '/' by {
        assert(kept[j] == path[j]);
    }
    if start > 0 {
        assert(kept[start - 1] == path[start - 1]);
    }
    lemma_last_index_is(kept, '/', start - 1);
    lemma_last_index_of_append(kept, tail, '/');
    assert(file_name_start(out) == start);
    let new_name = file_name(out);
    assert(new_name =~= name.take(stem) + tail);
    assert(new_name.len() == stem + 1 + ext.len());
    assert(new_name[stem] == '.');
    assert forall|j: int| stem < j < new_name.len() implies new_name[j] != '.' by {
        assert(new_name[j] == ext[j - stem - 1]);
    }
    lemma_last_index_is(new_name, '.', stem);
    assert(stem > 0);
    assert(new_name.len() >= 3);
    assert(new_name.skip(stem + 1) =~= ext);
    assert(out.take(start + stem) =~= kept);
}

/// The greatest index at which `c` stands in `chars`.
pub fn last_index(chars: &Vec<char>, c: char) -> (found: Option<usize>)
    ensures
        match found {
            Some(i) => i as int == last_index_of(chars@, c),
            None => last_index_of(chars@, c) == -1,
        },
{
    let mut i: usize = chars.len();
    while i > 0
        invariant
            i <= chars.len(),
            forall|j: int| i <= j < chars.len() ==> chars@[j] != c,
        decreases i,
    {
        i = i - 1;
        if chars[i] == c {
            proof {
                lemma_last_index_is(chars@, c, i as int);
            }
            return Some(i);
        }
    }
    proof {
        lemma_last_index_is(chars@, c, -1);
    }
    None
}

/// The characters of a string, in order.
pub fn chars_of(text: &str) -> (chars: Vec<char>)
    ensures
        chars@ == text@,
{
    let mut chars: Vec<char> = Vec::new();
    for c in it: text.chars()
        invariant
            it.seq() == text@,
            chars@ == it.seq().take(it.index() as int),
    {
        chars.push(c);
    }
    chars
}

/// Where the file name begins in `chars`, and where its stem and the name
/// itself end; `None` where `chars` has no file name.
fn name_bounds(chars: &Vec<char>) -> (bounds: Option<(usize, usize)>)
    ensures
        match bounds {
            Some((start, stem_end)) => {
                &&& names_file(file_name(chars@))
                &&& start as int == file_name_start(chars@)
                &&& stem_end as int == start + stem_len(file_name(chars@))
                &&& start < stem_end <= chars@.len()
            },
            None => !names_file(file_name(chars@)),
        },
{
    let len: usize = chars.len();
    proof {
        lemma_last_index_of(chars@, '/');
    }
    let start: usize = match last_index(chars, '/') {
        Some(slash) => slash + 1,
        None => 0,
    };
    let ghost name = file_name(chars@);
    assert(name.len() == len - start);
    assert(forall|k: int| 0 <= k < name.len() ==> name[k] == chars@[start + k]);
    if start == len {
        return None;
    }
    if len - start == 1 && chars[start] == '.' {
        assert(name =~= seq!['.']);
        return None;
    }
    if len - start == 2 && chars[start] == '.' && chars[start + 1] == '.' {
        assert(name =~= seq!['.', '.']);
        return None;
    }
    assert(names_file(name)) by {
        if name == seq!['.'] {
            assert(name[0] == '.');
        }
        if name == seq!['.', '.'] {
            assert(name[0] == '.' && name[1] == '.');
        }
    }
    let mut i: usize = len;
    while i > start + 1
        invariant
            start < i <= len,
            len == chars@.len(),
            start as int == file_name_start(chars@),
            name == file_name(chars@),
            names_file(name),
            name == chars@.skip(start as int),
            name.len() == len - start,
            forall|j: int| i - start <= j < name.len() ==> name[j] != '.',
        decreases i,
    {
        i = i - 1;
        if chars[i] == '.' {
            proof {
                assert(name[i - start] == chars@[i as int]);
                lemma_last_index_is(name, '.', i - start);
            }
            return Some((start, i));
        }
    }
    proof {
        lemma_last_index_of(name, '.');
        assert(last_index_of(name, '.') <= 0);
    }
    Some((start, len))
}

/// The extension of the file name of `path`, without its `.`.
pub fn extension_of(path: &str) -> (ext: Option<String>)
    ensures
        match ext {
            Some(e) => extension(path@) == Some(e@),
            None => extension(path@) is None,
        },
{
    let chars = chars_of(path);
    match name_bounds(&chars) {
        None => None,
        Some((start, stem_end)) => {
            let len: usize = chars.len();
            proof {
                lemma_last_index_of(file_name(path@), '.');
            }
            if stem_end == len {
                // The name has no `.` behind its first character, unless
                // its last `.` is its very end.
                None
            } else {
                let ext = path.substring_char(stem_end + 1, len);
                assert(ext@ =~= file_name(path@).skip(stem_end - start + 1));
                Some(ext.to_owned())
            }
        },
    }
}

/// The stem of the file name of `path`.
pub fn file_stem_of(path: &str) -> (stem: Option<String>)
    ensures
        match stem {
            Some(s) => file_stem(path@) == Some(s@),
            None => file_stem(path@) is None,
        },
{
    let chars = chars_of(path);
    match name_bounds(&chars) {
        None => None,
        Some((start, stem_end)) => {
            let stem = path.substring_char(start, stem_end);
            assert(stem@ =~= file_name(path@).take(stem_len(file_name(path@))));
            Some(stem.to_owned())
        },
    }
}

/// `path` with the extension of its file name replaced by `ext`.
pub fn set_extension(path: &str, ext: &str) -> (out: String)
    ensures
        out@ == with_extension(path@, ext@),
{
    let chars = chars_of(path);
    match name_bounds(&chars) {
        None => path.to_owned(),
        Some((_start, stem_end)) => {
            let mut out = path.substring_char(0, stem_end).to_owned();
            if !ext.is_empty() {
                out.append(".");
                out.append(ext);
                proof {
                    reveal_strlit(".");
                    assert("."@ =~= seq!['.']);
                }
            }
            out
        },
    }
}

} // verus!
