//! The typed fields attached to a page, and path helpers for deriving
//! them.
//!
//! Paths are plain strings with `/` separating their components.

use vstd::prelude::*;

use crate::strings::{str_len, substring};
use vstd::string::StrSliceExecFns;

verus! {

/// The output file name of a page.
#[derive(Debug, Clone)]
pub struct FileName(pub String);

/// The path of a page's source file, relative to the content directory.
#[derive(Debug, Clone)]
pub struct FilePath(String);

impl FilePath {
    /// Wraps a path.
    pub fn new(path: String) -> (r: Self)
        ensures
            r@ == path@,
    {
        FilePath(path)
    }

    /// The path as a string.
    pub fn as_str(&self) -> (r: &str)
        ensures
            r@ == self@,
    {
        self.0.as_str()
    }
}

impl View for FilePath {
    type V = Seq<char>;

    closed spec fn view(&self) -> Seq<char> {
        self.0@
    }
}

/// The rendered HTML of a page's body.
#[derive(Debug, Clone)]
pub struct HtmlBody(String);

impl HtmlBody {
    /// Wraps a rendered body.
    pub fn new(body: String) -> (r: Self)
        ensures
            r@ == body@,
    {
        HtmlBody(body)
    }

    /// The body as a string.
    pub fn as_str(&self) -> (r: &str)
        ensures
            r@ == self@,
    {
        self.0.as_str()
    }
}

impl View for HtmlBody {
    type V = Seq<char>;

    closed spec fn view(&self) -> Seq<char> {
        self.0@
    }
}

/// The name of a content section.
#[derive(Debug, Clone)]
pub struct SectionName(String);

impl SectionName {
    /// Wraps a section name.
    pub fn new(name: String) -> (r: Self)
        ensures
            r@ == name@,
    {
        SectionName(name)
    }

    /// The name as a string.
    pub fn as_str(&self) -> (r: &str)
        ensures
            r@ == self@,
    {
        self.0.as_str()
    }
}

impl View for SectionName {
    type V = Seq<char>;

    closed spec fn view(&self) -> Seq<char> {
        self.0@
    }
}

/// How a page is rendered and addressed.
#[derive(Debug, PartialEq, Eq, Structural, Hash, Clone, Copy)]
pub enum PageType {
    /// The site's front page.
    Index,
    /// A standalone page at the site root.
    Page,
    /// A section's listing page.
    Section,
    /// A dated entry within a section.
    Post,
}

impl PageType {
    /// The template base name of this page type.
    pub fn as_str(&self) -> (r: &'static str)
        ensures
            self is Index ==> r@ == "index"@,
            self is Page ==> r@ == "page"@,
            self is Section ==> r@ == "section"@,
            self is Post ==> r@ == "post"@,
    {
        match self {
            PageType::Index => "index",
            PageType::Page => "page",
            PageType::Section => "section",
            PageType::Post => "post",
        }
    }
}

/// The rightmost position of `c` in `s`, if any.
pub open spec fn spec_rfind(s: Seq<char>, c: char) -> Option<int>
    decreases s.len(),
{
    if s.len() == 0 {
        None
    } else if s[s.len() - 1] == c {
        Some(s.len() - 1)
    } else {
        spec_rfind(s.subrange(0, s.len() - 1), c)
    }
}

/// The rightmost position of `c` in `s`, if any.
pub fn rfind_char(s: &str, c: char) -> (r: Option<usize>)
    ensures
        match r {
            Some(i) => i < s@.len() && spec_rfind(s@, c) == Some(i as int),
            None => spec_rfind(s@, c) is None,
        },
{
    let s_len = s.unicode_len();
    proof {
        assert(s@.subrange(0, s_len as int) =~= s@);
    }
    let mut b: usize = s_len;
    while b > 0
        invariant
            s_len == s@.len(),
            b <= s_len,
            spec_rfind(s@, c) == spec_rfind(s@.subrange(0, b as int), c),
        decreases b,
    {
        let ghost before = s@.subrange(0, b as int);
        if s.get_char(b - 1) == c {
            proof {
                assert(before[before.len() - 1] == c);
            }
            return Some(b - 1);
        }
        b = b - 1;
        proof {
            assert(before.subrange(0, before.len() - 1) =~= s@.subrange(0, b as int));
        }
    }
    proof {
        assert(s@.subrange(0, 0) =~= Seq::<char>::empty());
    }
    None
}

/// The final component of `path`: everything after the last `/`, or the
/// whole path when it has no `/`.
pub open spec fn spec_file_name(path: Seq<char>) -> Seq<char> {
    match spec_rfind(path, '/') {
        Some(i) => path.subrange(i + 1, path.len() as int),
        None => path,
    }
}

/// The final component of `path`.
pub fn file_name_of(path: &str) -> (r: String)
    ensures
        r@ == spec_file_name(path@),
{
    let len = str_len(path);
    match rfind_char(path, '/') {
        Some(i) => substring(path, i + 1, len),
        None => {
            proof {
                assert(path@.subrange(0, path@.len() as int) =~= path@);
            }
            substring(path, 0, len)
        },
    }
}

/// The stem of a file name: everything before the last `.`, unless the
/// only `.` opens the name; an empty name has no stem.
pub open spec fn spec_file_stem(name: Seq<char>) -> Option<Seq<char>> {
    if name.len() == 0 {
        None
    } else {
        match spec_rfind(name, '.') {
            Some(i) => if i > 0 {
                Some(name.subrange(0, i))
            } else {
                Some(name)
            },
            None => Some(name),
        }
    }
}

/// The stem of a file name.
pub fn file_stem_of(name: &str) -> (r: Option<String>)
    ensures
        match r {
            Some(stem) => spec_file_stem(name@) == Some(stem@),
            None => spec_file_stem(name@) is None,
        },
{
    let len = str_len(name);
    if len == 0 {
        return None;
    }
    match rfind_char(name, '.') {
        Some(i) => {
            if i > 0 {
                Some(substring(name, 0, i))
            } else {
                proof {
                    assert(name@.subrange(0, name@.len() as int) =~= name@);
                }
                Some(substring(name, 0, len))
            }
        },
        None => {
            proof {
                assert(name@.subrange(0, name@.len() as int) =~= name@);
            }
            Some(substring(name, 0, len))
        },
    }
}

/// A discovered first-level content directory, remembered by its stem;
/// applying it to the shared state registers the section's page types.
#[derive(Debug, Clone)]
pub struct EnumeratedSections(pub String);

impl EnumeratedSections {
    /// The section named by `path`'s file stem, if it has one.
    pub fn new(path: String) -> (r: Option<Self>)
        ensures
            match r {
                Some(s) => spec_file_stem(spec_file_name(path@)) == Some(s.0@),
                None => spec_file_stem(spec_file_name(path@)) is None,
            },
    {
        let name = file_name_of(path.as_str());
        match file_stem_of(name.as_str()) {
            Some(stem) => Some(EnumeratedSections(stem)),
            None => None,
        }
    }
}

} // verus!
