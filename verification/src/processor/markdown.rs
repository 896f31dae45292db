//! The markdown processor: loads page sources, splits front matter
//! from body, extracts the front-matter fields, and renders the body to
//! HTML.
//!
//! Reading the content directory is background I/O; its verified core
//! turns what was read into the command the barrier applies.  The other
//! steps transform the shared state in place.

use vstd::prelude::*;

use crate::command::CommandQueue;
use crate::file::{spec_file_name, FileName, FilePath, HtmlBody};
use crate::front_matter::{Date, Title};
use crate::matterparser::{spec_excerpt_and_content, spec_matter_text, Parser};
use crate::store::{PageModel, PageRecord, SiteCommand, SiteState};
use crate::strings::{contains_sub, spec_find, spec_starts_with, spec_trim_end_matches,
    starts_with, str_len, substring, trim_end_matches};
use vstd::string::{StrSliceExecFns, StringExecFns};
use crate::toml_ext::{table_get, toml_parses, value_as_bool, value_display};
use crate::traits::Extractor;

verus! {

/// Runs the markdown steps of a site build, extracting front matter
/// through `T`.
pub struct MarkdownProcessor<T> {
    _marker: core::marker::PhantomData<T>,
}

impl<T> MarkdownProcessor<T> {
    /// A markdown processor.
    pub fn new() -> (r: Self) {
        MarkdownProcessor { _marker: core::marker::PhantomData }
    }
}

impl<T> Default for MarkdownProcessor<T> {
    /// A markdown processor.
    fn default() -> (r: Self) {
        Self::new()
    }
}

/// The raw text of a loaded page.
#[derive(Debug, Clone)]
pub struct MarkdownPost(pub String);

/// The parsed front-matter table of a page, if its front matter parsed.
#[derive(Debug)]
pub struct MarkdownFrontMatter(Option<toml::Table>);

impl MarkdownFrontMatter {
    /// Whether a table was parsed.
    pub closed spec fn spec_has_table(&self) -> bool {
        self.0 is Some
    }

    /// Wraps the outcome of parsing a page's front matter.
    pub fn new(table: Option<toml::Table>) -> (r: Self)
        ensures
            r.spec_has_table() == (table is Some),
    {
        MarkdownFrontMatter(table)
    }

    /// The parsed table, if any.
    pub fn access(&self) -> (r: Option<&toml::Table>)
        ensures
            (r is Some) == self.spec_has_table(),
    {
        self.0.as_ref()
    }

    /// Attaches the title, date and draft flag read from the table.
    /// Without a table nothing is attached; what the values hold is the
    /// table's business, not the scheduler's.
    pub fn extract_fields(&self, page: &mut PageRecord)
        ensures
            final(page).path == old(page).path,
            final(page).source == old(page).source,
            final(page).body == old(page).body,
            final(page).matter == old(page).matter,
            final(page).parsed == old(page).parsed,
            final(page).html == old(page).html,
            final(page).file_name == old(page).file_name,
            final(page).associated == old(page).associated,
            final(page).context_content == old(page).context_content,
            !self.spec_has_table() ==> final(page).title == old(page).title && final(page).date
                == old(page).date && final(page).draft == old(page).draft,
    {
        match self.access() {
            Some(data) => {
                match table_get(data, "title") {
                    Some(v) => {
                        page.title = Some(Title(value_display(v)));
                    },
                    None => {},
                }
                match table_get(data, "date") {
                    Some(v) => {
                        page.date = Some(Date(value_display(v)));
                    },
                    None => {},
                }
                match table_get(data, "draft") {
                    Some(v) => {
                        match value_as_bool(v) {
                            Some(true) => {
                                page.draft = true;
                            },
                            _ => {},
                        }
                    },
                    None => {},
                }
            },
            None => {},
        }
    }

    /// Attaches the output file name derived from the page's source
    /// path: `index.html` for section listings, otherwise the file name
    /// with its markdown suffix replaced by `.html`.
    pub fn extract_file_name(&self, page: &mut PageRecord, path: &str)
        ensures
            final(page).path == old(page).path,
            final(page).source == old(page).source,
            final(page).body == old(page).body,
            final(page).matter == old(page).matter,
            final(page).parsed == old(page).parsed,
            final(page).html == old(page).html,
            final(page).title == old(page).title,
            final(page).date == old(page).date,
            final(page).draft == old(page).draft,
            final(page).associated == old(page).associated,
            final(page).context_content == old(page).context_content,
            final(page)@.file_name == spec_extracted_file_name(path@, old(page)@.file_name),
    {
        let name = crate::file::file_name_of(path);
        if str_len(name.as_str()) == 0 {
            return ;
        }
        if contains_sub(name.as_str(), "_index") {
            page.file_name = Some(FileName("index.html".to_owned()));
        } else {
            let trimmed = trim_end_matches(name.as_str(), ".md");
            page.file_name = Some(FileName(trimmed.concat(".html")));
        }
    }
}

impl Extractor for MarkdownFrontMatter {
    /// Attaches the title, date and draft flag read from the table.
    fn extract(&self, page: &mut PageRecord) {
        self.extract_fields(page);
    }

    /// Attaches the output file name derived from the page's source
    /// path.
    fn extract_from_path(&self, page: &mut PageRecord, path: &str) {
        self.extract_file_name(page, path);
    }
}

/// The output file name a source path yields: unchanged when the path
/// has no final component; `index.html` for section listings; otherwise
/// the name with its markdown suffix replaced by `.html`.
pub open spec fn spec_extracted_file_name(path: Seq<char>, prior: Option<Seq<char>>) -> Option<
    Seq<char>,
> {
    let name = spec_file_name(path);
    if name.len() == 0 {
        prior
    } else if spec_find(name, "_index"@, 0) is Some {
        Some("index.html"@)
    } else {
        Some(spec_trim_end_matches(name, ".md"@) + ".html"@)
    }
}

/// What rendering a markdown text to HTML yields.  The rendering is a
/// function of the text alone.
pub uninterp spec fn html_of(md: Seq<char>) -> Seq<char>;

/// Relies on `pulldown_cmark`: `Parser::new_ext` with all extensions
/// enabled, rendered through `html::push_html`.  The rendering depends
/// on the text alone.
#[verifier::external_body]
pub(crate) fn markdown_to_html(md: &str) -> (r: String)
    ensures
        r@ == html_of(md@),
{
    let parser = pulldown_cmark::Parser::new_ext(md, pulldown_cmark::Options::all());
    let mut html = String::new();
    pulldown_cmark::html::push_html(&mut html, parser);
    html
}

/// The path `p` relative to `origin`: the prefix and a following `/`
/// removed when present, the path untouched otherwise.
pub open spec fn spec_rel_path(origin: Seq<char>, p: Seq<char>) -> Seq<char> {
    let rest = if spec_starts_with(p, origin) {
        p.subrange(origin.len() as int, p.len() as int)
    } else {
        p
    };
    if rest.len() > 0 && rest[0] == '/' {
        rest.subrange(1, rest.len() as int)
    } else {
        rest
    }
}

/// The path `p` relative to `origin`.
pub fn rel_path(origin: &str, p: &str) -> (r: String)
    ensures
        r@ == spec_rel_path(origin@, p@),
{
    let p_len = str_len(p);
    let o_len = str_len(origin);
    let rest: String;
    if starts_with(p, origin) {
        rest = substring(p, o_len, p_len);
    } else {
        proof {
            assert(p@.subrange(0, p@.len() as int) =~= p@);
        }
        rest = substring(p, 0, p_len);
    }
    let rest_len = str_len(rest.as_str());
    if rest_len > 0 && starts_with_slash(rest.as_str()) {
        substring(rest.as_str(), 1, rest_len)
    } else {
        proof {
            assert(rest@.subrange(0, rest@.len() as int) =~= rest@);
        }
        substring(rest.as_str(), 0, rest_len)
    }
}

/// Whether `s` opens with a path separator.
fn starts_with_slash(s: &str) -> (r: bool)
    requires
        s@.len() > 0,
    ensures
        r == (s@[0] == '/'),
{
    s.get_char(0) == '/'
}

/// The compute core of the content scan: one command that loads every
/// file that was read, each under its path relative to the content
/// directory.
pub fn page_commands(origin: &str, files: Vec<(String, String)>) -> (r: CommandQueue<SiteCommand>)
    ensures
        r@.len() == 1,
        (r@[0] matches SiteCommand::Pages(v) && v@.len() == files@.len() && (forall|k: int|
            0 <= k < files@.len() ==> (#[trigger] v@[k]).0@ == spec_rel_path(
                origin@,
                files@[k].0@,
            ) && v@[k].1.0@ == files@[k].1@)),
{
    let mut pages: Vec<(FilePath, MarkdownPost)> = Vec::new();
    let ghost files0 = files@;
    let mut files = files;
    while files.len() > 0
        invariant
            files0.len() >= files@.len(),
            files@ == files0.subrange(files0.len() - files@.len(), files0.len() as int),
            pages@.len() == files0.len() - files@.len(),
            forall|k: int|
                0 <= k < pages@.len() ==> (#[trigger] pages@[k]).0@ == spec_rel_path(
                    origin@,
                    files0[k].0@,
                ) && pages@[k].1.0@ == files0[k].1@,
        decreases files.len(),
    {
        let ghost consumed = files0.len() - files@.len();
        let (path, text) = files.remove(0);
        let rel = rel_path(origin, path.as_str());
        pages.push((FilePath::new(rel), MarkdownPost(text)));
        proof {
            assert(files@ =~= files0.subrange(files0.len() - files@.len(), files0.len() as int));
        }
    }
    let mut queue: CommandQueue<SiteCommand> = CommandQueue::new();
    queue.push(SiteCommand::Pages(pages));
    queue
}

/// The model of a page after the format step: a loaded page that opens
/// with the front-matter delimiter gets its body and the verdict on its
/// front matter; any other page is untouched.
pub open spec fn spec_page_after_format(
    p: PageModel,
    delim: Seq<char>,
    excerpt: Option<Seq<char>>,
) -> PageModel {
    match p.source {
        None => p,
        Some(src) => if spec_starts_with(src, delim) {
            PageModel {
                body: Some(spec_excerpt_and_content(delim, excerpt, src).1),
                has_matter: toml_parses(spec_matter_text(delim, src)),
                ..p
            }
        } else {
            p
        },
    }
}

/// Splits every loaded page into front matter and body, as the parser's
/// page format states.
pub fn parse_page_format(state: &mut SiteState, matter: &Parser)
    ensures
        final(state)@.pages.len() == old(state)@.pages.len(),
        forall|i: int|
            0 <= i < old(state)@.pages.len() ==> final(state)@.pages[i]
                == spec_page_after_format(
                #[trigger] old(state)@.pages[i],
                matter.spec_delimiter(),
                matter.spec_excerpt(),
            ),
        final(state)@.page_types == old(state)@.page_types,
        final(state)@.file_config == old(state)@.file_config,
        final(state)@.content_dir == old(state)@.content_dir,
        final(state)@.output_dir == old(state)@.output_dir,
{
    let ghost pages0 = old(state)@.pages;
    let n = state.pages.len();
    let mut i: usize = 0;
    while i < n
        invariant
            n == state.pages@.len(),
            pages0.len() == n,
            i <= n,
            forall|k: int|
                0 <= k < i ==> (#[trigger] state.pages@[k])@ == spec_page_after_format(
                    pages0[k],
                    matter.spec_delimiter(),
                    matter.spec_excerpt(),
                ),
            forall|k: int| i <= k < n ==> (#[trigger] state.pages@[k])@ == pages0[k],
            state.page_types@ == old(state).page_types@,
            state.file_config == old(state).file_config,
            state.content_dir == old(state).content_dir,
            state.output_dir == old(state).output_dir,
        decreases n - i,
    {
        let source_text: Option<String> = match &state.pages[i].source {
            Some(s) => Some(s.0.clone()),
            None => None,
        };
        match source_text {
            Some(text) => {
                match matter.parse(text.as_str()) {
                    Some(mut parsed) => {
                        let content = parsed.take_content();
                        let table = parsed.take_matter();
                        state.pages[i].body = Some(content);
                        state.pages[i].matter = Some(MarkdownFrontMatter(table));
                    },
                    None => {},
                }
            },
            None => {},
        }
        i = i + 1;
    }
}

/// The relation between a page before and after the front-matter step:
/// a page with a body whose fields were not yet extracted is marked
/// extracted, gets the output file name its path yields, and — only
/// when a front-matter table parsed — may get a title, a date and a
/// draft flag from that table; every other page is untouched.
pub open spec fn spec_frontmatter_step(p: PageModel, q: PageModel) -> bool {
    if p.body is Some && !p.parsed {
        &&& q.parsed == true
        &&& q.file_name == spec_extracted_file_name(p.path, p.file_name)
        &&& q.path == p.path
        &&& q.source == p.source
        &&& q.body == p.body
        &&& q.has_matter == p.has_matter
        &&& q.html == p.html
        &&& q.associated == p.associated
        &&& q.context_content == p.context_content
        &&& !p.has_matter ==> q.title == p.title && q.date == p.date && q.draft == p.draft
    } else {
        q == p
    }
}

/// Extracts the front matter of every page whose body was split but
/// whose fields were not yet extracted, and derives each page's output
/// file name from its source path.
pub fn parse_frontmatter(state: &mut SiteState)
    ensures
        final(state)@.pages.len() == old(state)@.pages.len(),
        forall|i: int|
            0 <= i < old(state)@.pages.len() ==> spec_frontmatter_step(
                #[trigger] old(state)@.pages[i],
                final(state)@.pages[i],
            ),
        final(state)@.page_types == old(state)@.page_types,
        final(state)@.file_config == old(state)@.file_config,
        final(state)@.content_dir == old(state)@.content_dir,
        final(state)@.output_dir == old(state)@.output_dir,
{
    let ghost pages0 = old(state)@.pages;
    let n = state.pages.len();
    let mut i: usize = 0;
    while i < n
        invariant
            n == state.pages@.len(),
            pages0.len() == n,
            i <= n,
            forall|k: int|
                0 <= k < i ==> spec_frontmatter_step(pages0[k], (#[trigger] state.pages@[k])@),
            forall|k: int| i <= k < n ==> (#[trigger] state.pages@[k])@ == pages0[k],
            state.page_types@ == old(state).page_types@,
            state.file_config == old(state).file_config,
            state.content_dir == old(state).content_dir,
            state.output_dir == old(state).output_dir,
        decreases n - i,
    {
        let gate = match &state.pages[i].body {
            Some(_) => !state.pages[i].parsed,
            None => false,
        };
        if gate {
            let path: String = state.pages[i].path.as_str().to_owned();
            let matter = state.pages[i].matter.take();
            match matter {
                Some(m) => {
                    m.extract_file_name(&mut state.pages[i], path.as_str());
                    m.extract_fields(&mut state.pages[i]);
                    state.pages[i].matter = Some(m);
                },
                None => {
                    let m = MarkdownFrontMatter(None);
                    m.extract_file_name(&mut state.pages[i], path.as_str());
                    m.extract_fields(&mut state.pages[i]);
                },
            }
            state.pages[i].parsed = true;
        }
        i = i + 1;
    }
}

/// The model of a page after the rendering step: a page with a body
/// and no HTML yet gets the body's rendering; any other page is
/// untouched.
pub open spec fn spec_page_after_html(p: PageModel) -> PageModel {
    match p.body {
        Some(b) => if p.html is None {
            PageModel { html: Some(html_of(b)), ..p }
        } else {
            p
        },
        None => p,
    }
}

/// Renders every split page's markdown body to HTML.
pub fn convert_markdown_to_html(state: &mut SiteState)
    ensures
        final(state)@.pages.len() == old(state)@.pages.len(),
        forall|i: int|
            0 <= i < old(state)@.pages.len() ==> final(state)@.pages[i] == spec_page_after_html(
                #[trigger] old(state)@.pages[i],
            ),
        final(state)@.page_types == old(state)@.page_types,
        final(state)@.file_config == old(state)@.file_config,
        final(state)@.content_dir == old(state)@.content_dir,
        final(state)@.output_dir == old(state)@.output_dir,
{
    let ghost pages0 = old(state)@.pages;
    let n = state.pages.len();
    let mut i: usize = 0;
    while i < n
        invariant
            n == state.pages@.len(),
            pages0.len() == n,
            i <= n,
            forall|k: int|
                0 <= k < i ==> (#[trigger] state.pages@[k])@ == spec_page_after_html(pages0[k]),
            forall|k: int| i <= k < n ==> (#[trigger] state.pages@[k])@ == pages0[k],
            state.page_types@ == old(state).page_types@,
            state.file_config == old(state).file_config,
            state.content_dir == old(state).content_dir,
            state.output_dir == old(state).output_dir,
        decreases n - i,
    {
        let body_text: Option<String> = match (&state.pages[i].body, &state.pages[i].html) {
            (Some(b), None) => Some(b.clone()),
            _ => None,
        };
        match body_text {
            Some(text) => {
                let html = markdown_to_html(text.as_str());
                state.pages[i].html = Some(HtmlBody::new(html));
            },
            None => {},
        }
        i = i + 1;
    }
}

} // verus!
