//! The front-matter page format.
//!
//! A page carries optional TOML front matter between two copies of a
//! delimiter at the very start of the text, followed by the page's
//! content; the content may in turn open with an excerpt, closed by a
//! configured excerpt marker.
//!
//!     +++
//!     title = "…"
//!     +++
//!     An excerpt.
//!     <!-- more -->
//!     The rest of the page.
//!
//! [`Parser::parse`] splits a page into those three parts.

use vstd::prelude::*;

use crate::strings::{find_sub, spec_find, spec_starts_with, spec_trim, starts_with, str_len,
    substring, trim};
use crate::toml_ext::{parse_table, table_get, toml_parses};

verus! {

/// The text between the opening delimiter and the next one (or the
/// page's end): what the front-matter table is parsed from.
pub open spec fn spec_matter_text(delim: Seq<char>, page: Seq<char>) -> Seq<char> {
    match spec_find(page, delim, delim.len() as int) {
        Some(e) => page.subrange(delim.len() as int, e),
        None => page.subrange(delim.len() as int, page.len() as int),
    }
}

/// The raw content piece following the closing delimiter: the text up
/// to the next delimiter or the page's end, or nothing when the page
/// ends at the closing delimiter or never closes the front matter.
pub open spec fn spec_content_piece(delim: Seq<char>, page: Seq<char>) -> Option<Seq<char>> {
    match spec_find(page, delim, delim.len() as int) {
        None => None,
        Some(e) => {
            let start = e + delim.len();
            match spec_find(page, delim, start) {
                Some(e2) => Some(page.subrange(start, e2)),
                None => if start == page.len() {
                    None
                } else {
                    Some(page.subrange(start, page.len() as int))
                },
            }
        },
    }
}

/// The excerpt and the content of a parsed page: when an excerpt
/// marker is configured and occurs in the content piece, the trimmed
/// text before it and the trimmed text after it; otherwise no excerpt,
/// and the trimmed content piece — or, if the front matter never
/// closed, the whole trimmed page.
pub open spec fn spec_excerpt_and_content(
    delim: Seq<char>,
    excerpt: Option<Seq<char>>,
    page: Seq<char>,
) -> (Option<Seq<char>>, Seq<char>) {
    match spec_content_piece(delim, page) {
        None => (None, spec_trim(page)),
        Some(text) => match excerpt {
            None => (None, spec_trim(text)),
            Some(ed) => match spec_find(text, ed, 0) {
                None => (None, spec_trim(text)),
                Some(i) => (
                    Some(spec_trim(text.subrange(0, i))),
                    spec_trim(text.subrange(i + ed.len(), text.len() as int)),
                ),
            },
        },
    }
}

/// Splits pages written in the front-matter format.
#[derive(Debug)]
pub struct Parser {
    delimiter: String,
    excerpt: Option<String>,
}

impl Parser {
    /// The configured front-matter delimiter.
    pub closed spec fn spec_delimiter(&self) -> Seq<char> {
        self.delimiter@
    }

    /// The configured excerpt marker, if any.
    pub closed spec fn spec_excerpt(&self) -> Option<Seq<char>> {
        match self.excerpt {
            Some(e) => Some(e@),
            None => None,
        }
    }

    /// A parser for pages whose front matter is fenced by `delimiter`.
    pub fn new(delimiter: &str) -> (r: Self)
        ensures
            r.spec_delimiter() == delimiter@,
            r.spec_excerpt() is None,
    {
        Parser { delimiter: delimiter.to_owned(), excerpt: None }
    }

    /// The same parser, with `excerpt` closing an optional excerpt at
    /// the start of the content.
    pub fn with_excerpt(self, excerpt: &str) -> (r: Self)
        ensures
            r.spec_delimiter() == self.spec_delimiter(),
            r.spec_excerpt() == Some(excerpt@),
    {
        Parser { delimiter: self.delimiter, excerpt: Some(excerpt.to_owned()) }
    }

    /// Splits `page` into front matter, excerpt and content.
    ///
    /// A page that does not open with the delimiter has no front matter
    /// at all and yields `None`.  Otherwise the text up to the closing
    /// delimiter is parsed as a TOML table (`None` when it does not
    /// parse), and the content and excerpt are carved out of the rest as
    /// [`spec_excerpt_and_content`] states.
    pub fn parse(&self, page: &str) -> (r: Option<ParsedData>)
        ensures
            (r is Some) == spec_starts_with(page@, self.spec_delimiter()),
            match r {
                Some(d) => {
                    &&& d.spec_has_matter() == toml_parses(
                        spec_matter_text(self.spec_delimiter(), page@),
                    )
                    &&& d.spec_excerpt_text() == spec_excerpt_and_content(
                        self.spec_delimiter(),
                        self.spec_excerpt(),
                        page@,
                    ).0
                    &&& d.spec_content() == spec_excerpt_and_content(
                        self.spec_delimiter(),
                        self.spec_excerpt(),
                        page@,
                    ).1
                },
                None => true,
            },
    {
        if !starts_with(page, self.delimiter.as_str()) {
            return None;
        }
        let page_len = str_len(page);
        let dlen = str_len(self.delimiter.as_str());
        let matter_text: String;
        let content_piece: Option<String>;
        match find_sub(page, self.delimiter.as_str(), dlen) {
            Some(e) => {
                matter_text = substring(page, dlen, e);
                let start = e + dlen;
                match find_sub(page, self.delimiter.as_str(), start) {
                    Some(e2) => {
                        content_piece = Some(substring(page, start, e2));
                    },
                    None => {
                        if start == page_len {
                            content_piece = None;
                        } else {
                            content_piece = Some(substring(page, start, page_len));
                        }
                    },
                }
            },
            None => {
                matter_text = substring(page, dlen, page_len);
                content_piece = None;
            },
        }
        let matter = parse_table(matter_text.as_str());
        let excerpt_text: Option<String>;
        let content: String;
        match content_piece {
            None => {
                excerpt_text = None;
                content = trim(page);
            },
            Some(text) => {
                match &self.excerpt {
                    None => {
                        excerpt_text = None;
                        content = trim(text.as_str());
                    },
                    Some(ed) => {
                        match find_sub(text.as_str(), ed.as_str(), 0) {
                            None => {
                                excerpt_text = None;
                                content = trim(text.as_str());
                            },
                            Some(i) => {
                                let elen = str_len(ed.as_str());
                                let tlen = str_len(text.as_str());
                                let before = substring(text.as_str(), 0, i);
                                let after = substring(text.as_str(), i + elen, tlen);
                                excerpt_text = Some(trim(before.as_str()));
                                content = trim(after.as_str());
                            },
                        }
                    },
                }
            },
        }
        Some(ParsedData { matter, excerpt: excerpt_text, content })
    }
}

impl Default for Parser {
    /// A parser for the conventional `+++` front-matter fence.
    fn default() -> (r: Self)
        ensures
            r.spec_delimiter() == "+++"@,
            r.spec_excerpt() is None,
    {
        Self::new("+++")
    }
}

/// A page split into front matter, excerpt and content.
#[derive(Debug)]
pub struct ParsedData {
    matter: Option<toml::Table>,
    excerpt: Option<String>,
    content: String,
}

impl ParsedData {
    /// Whether the page carried a front-matter table that parsed.
    pub closed spec fn spec_has_matter(&self) -> bool {
        self.matter is Some
    }

    /// The excerpt, if one was carved out.
    pub closed spec fn spec_excerpt_text(&self) -> Option<Seq<char>> {
        match self.excerpt {
            Some(e) => Some(e@),
            None => None,
        }
    }

    /// The page's content.
    pub closed spec fn spec_content(&self) -> Seq<char> {
        self.content@
    }

    /// Looks up `key` in the front-matter table.  Without a table there
    /// is nothing to find.
    pub fn get<'a>(&'a self, key: &str) -> (r: Option<&'a toml::Value>)
        ensures
            !self.spec_has_matter() ==> r is None,
    {
        match &self.matter {
            Some(table) => table_get(table, key),
            None => None,
        }
    }

    /// The excerpt, if one was carved out.
    pub fn excerpt(&self) -> (r: Option<&str>)
        ensures
            match r {
                Some(e) => self.spec_excerpt_text() == Some(e@),
                None => self.spec_excerpt_text() is None,
            },
    {
        match &self.excerpt {
            Some(e) => Some(e.as_str()),
            None => None,
        }
    }

    /// The page's content.
    pub fn content(&self) -> (r: &str)
        ensures
            r@ == self.spec_content(),
    {
        self.content.as_str()
    }

    /// Takes the excerpt out, leaving none behind.
    pub fn take_excerpt(&mut self) -> (r: Option<String>)
        ensures
            final(self).spec_excerpt_text() is None,
            final(self).spec_content() == old(self).spec_content(),
            final(self).spec_has_matter() == old(self).spec_has_matter(),
            match r {
                Some(e) => old(self).spec_excerpt_text() == Some(e@),
                None => old(self).spec_excerpt_text() is None,
            },
    {
        self.excerpt.take()
    }

    /// Takes the front-matter table out, leaving none behind.
    pub fn take_matter(&mut self) -> (r: Option<toml::Table>)
        ensures
            !final(self).spec_has_matter(),
            final(self).spec_content() == old(self).spec_content(),
            final(self).spec_excerpt_text() == old(self).spec_excerpt_text(),
            (r is Some) == old(self).spec_has_matter(),
    {
        self.matter.take()
    }

    /// Takes the content out, leaving the empty string behind.
    pub fn take_content(&mut self) -> (r: String)
        ensures
            r@ == old(self).spec_content(),
            final(self).spec_content() == Seq::<char>::empty(),
            final(self).spec_excerpt_text() == old(self).spec_excerpt_text(),
            final(self).spec_has_matter() == old(self).spec_has_matter(),
    {
        let mut content = String::new();
        core::mem::swap(&mut content, &mut self.content);
        content
    }
}

} // verus!
