//! Schemes: what an `.xcscheme` file says of itself.
use vstd::prelude::*;
use crate::text::{chars_of, text_of};

verus! {

/// A scheme of a project or workspace.
#[derive(Debug)]
pub struct XCScheme {
    /// The name of the scheme: the name of its file up to the first `.`.
    pub name: String,
    /// The version of Xcode that last upgraded the scheme.
    pub last_upgrade_version: Option<String>,
    /// The version of the scheme.
    pub version: Option<String>,
    /// Whether the scheme was made for an app extension.
    pub was_created_for_app_extension: Option<bool>,
}

/// The place of the first character `c` of `s` at or after `from`, or the end
/// of `s`.
pub open spec fn first_index_of(s: Seq<char>, c: char, from: int) -> int
    decreases s.len() - from,
{
    if from < 0 || from >= s.len() {
        s.len() as int
    } else if s[from] == c {
        from
    } else {
        first_index_of(s, c, from + 1)
    }
}

/// The place after the last character `c` among the first `upto` characters
/// of `s`, or 0 when there is none.
pub open spec fn after_last(s: Seq<char>, c: char, upto: int) -> int
    decreases upto,
{
    if upto <= 0 || upto > s.len() {
        0
    } else if s[upto - 1] == c {
        upto
    } else {
        after_last(s, c, upto - 1)
    }
}

/// The name of the file at `path`: what follows the last `/`.
pub open spec fn file_name_of(path: Seq<char>) -> Seq<char> {
    path.subrange(after_last(path, '/', path.len() as int), path.len() as int)
}

/// The stem of a file name: what stands before its first `.`.
pub open spec fn stem_of(name: Seq<char>) -> Seq<char> {
    name.subrange(0, first_index_of(name, '.', 0))
}

/// The directory that holds the file at `path`: what stands before the last
/// `/`; the root directory for a file directly in it, and the empty path for
/// a path without `/`.
pub open spec fn parent_of(path: Seq<char>) -> Seq<char> {
    let cut = after_last(path, '/', path.len() as int);
    if cut == 0 {
        Seq::empty()
    } else if cut == 1 {
        path.subrange(0, 1)
    } else {
        path.subrange(0, cut - 1)
    }
}

/// The place after the last `c` of `s`.
pub fn find_after_last(s: &Vec<char>, c: char) -> (r: usize)
    ensures
        r == after_last(s@, c, s@.len() as int),
        r <= s.len(),
{
    let mut i: usize = s.len();
    while i > 0 && s[i - 1] != c
        invariant
            i <= s.len(),
            after_last(s@, c, s@.len() as int) == after_last(s@, c, i as int),
        decreases i,
    {
        i -= 1;
    }
    i
}

/// The place of the first `c` of `s` at or after `from`.
pub fn find_first(s: &Vec<char>, c: char, from: usize) -> (r: usize)
    requires
        from <= s.len(),
    ensures
        r == first_index_of(s@, c, from as int),
        from <= r <= s.len(),
{
    let mut i: usize = from;
    while i < s.len() && s[i] != c
        invariant
            from <= i <= s.len(),
            first_index_of(s@, c, from as int) == first_index_of(s@, c, i as int),
        decreases s.len() - i,
    {
        i += 1;
    }
    i
}

/// The stem of the name of the file at `path`.
pub fn file_stem(path: &str) -> (r: String)
    ensures
        r@ == stem_of(file_name_of(path@)),
{
    let s = chars_of(path);
    let start = find_after_last(&s, '/');
    let name_text = text_of(&s, start, s.len());
    let name = chars_of(name_text.as_str());
    let end = find_first(&name, '.', 0);
    text_of(&name, 0, end)
}

/// The directory that holds the file at `path`.
pub fn parent_directory(path: &str) -> (r: String)
    ensures
        r@ == parent_of(path@),
{
    let s = chars_of(path);
    let cut = find_after_last(&s, '/');
    if cut == 0 {
        let r = String::new();
        assert(r@ =~= Seq::<char>::empty());
        r
    } else if cut == 1 {
        text_of(&s, 0, 1)
    } else {
        text_of(&s, 0, cut - 1)
    }
}

impl XCScheme {
    /// The scheme of the file at `path` with the given contents: its name is
    /// the stem of the name of the file.
    pub fn with_file_name(
        path: &str,
        last_upgrade_version: Option<String>,
        version: Option<String>,
        was_created_for_app_extension: Option<bool>,
    ) -> (r: XCScheme)
        ensures
            r.name@ == stem_of(file_name_of(path@)),
            r.last_upgrade_version == last_upgrade_version,
            r.version == version,
            r.was_created_for_app_extension == was_created_for_app_extension,
    {
        XCScheme {
            name: file_stem(path),
            last_upgrade_version,
            version,
            was_created_for_app_extension,
        }
    }
}

} // verus!
