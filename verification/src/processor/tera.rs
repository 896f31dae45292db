//! The template processor: names a template for every page type,
//! associates each page with the page type it renders through, fills
//! the template contexts, and plans the output files.
//!
//! Rendering a template and writing the files are collaborator work
//! outside the scheduler; the processor's verified core decides what is
//! rendered where.

use vstd::prelude::*;

use crate::file::{spec_file_name, spec_rfind, file_name_of, rfind_char, PageType};
use crate::store::{PageModel, SiteState, TypeModel, TypeRow};
use crate::strings::{spec_find, contains_sub, str_len, substring};
use vstd::string::{StrSliceExecFns, StringExecFns};

verus! {

/// Renders pages through the site's templates.
#[derive(Debug)]
pub struct TeraProcessor {
    _private: (),
}

/// The template base name of a page type.
pub open spec fn spec_kind_str(kind: PageType) -> Seq<char> {
    match kind {
        PageType::Index => "index"@,
        PageType::Page => "page"@,
        PageType::Section => "section"@,
        PageType::Post => "post"@,
    }
}

/// The template path of a page-type row: the type's base name under
/// the section's directory for section and post rows, at the top level
/// otherwise.  A section row without a section names no template.
pub open spec fn spec_template_name(kind: PageType, section: Option<Seq<char>>) -> Option<
    Seq<char>,
> {
    match kind {
        PageType::Index => Some(spec_kind_str(kind) + ".html"@),
        PageType::Page => Some(spec_kind_str(kind) + ".html"@),
        PageType::Section => match section {
            Some(s) => Some(s + "/"@ + spec_kind_str(kind) + ".html"@),
            None => None,
        },
        PageType::Post => match section {
            Some(s) => Some(s + "/"@ + spec_kind_str(kind) + ".html"@),
            None => None,
        },
    }
}

/// A type row after template indexing: a row without a template gets
/// the one its kind and section name, when they name one.
pub open spec fn spec_row_after_index(t: TypeModel) -> TypeModel {
    if t.template is None {
        match spec_template_name(t.kind, t.section) {
            Some(name) => TypeModel { template: Some(name), ..t },
            None => t,
        }
    } else {
        t
    }
}

/// The directory of `path`: everything before the last `/`, or the
/// empty string for a path at the root.
pub open spec fn spec_parent(path: Seq<char>) -> Seq<char> {
    match spec_rfind(path, '/') {
        Some(i) => path.subrange(0, i),
        None => Seq::empty(),
    }
}

/// `path` with its final component replaced by `name`.
pub open spec fn spec_with_file_name(path: Seq<char>, name: Seq<char>) -> Seq<char> {
    match spec_rfind(path, '/') {
        Some(i) => path.subrange(0, i + 1) + name,
        None => name,
    }
}

/// `dir` and `rel` joined with a single separator.
pub open spec fn spec_join(dir: Seq<char>, rel: Seq<char>) -> Seq<char> {
    if dir.len() == 0 {
        rel
    } else if dir[dir.len() - 1] == '/' {
        dir + rel
    } else {
        dir + "/"@ + rel
    }
}

/// The page type a source path renders as: listings (`_index.md`) at
/// the root are the front page, other root files are standalone pages,
/// listings below the root are section pages, and everything else is a
/// post.
pub open spec fn spec_page_kind(path: Seq<char>) -> PageType {
    let is_root = spec_parent(path).len() == 0;
    let is_listing = spec_file_name(path) == "_index.md"@;
    if is_root && is_listing {
        PageType::Index
    } else if is_root && !is_listing {
        PageType::Page
    } else if !is_root && is_listing {
        PageType::Section
    } else {
        PageType::Post
    }
}

/// Whether a type row serves pages of kind `pt` in directory `dir`:
/// the kinds must agree, and a section or post row also requires its
/// section's name to occur in the directory.
pub open spec fn spec_row_matches(t: TypeModel, pt: PageType, dir: Seq<char>) -> bool {
    &&& t.kind == pt
    &&& match pt {
        PageType::Index => true,
        PageType::Page => true,
        PageType::Section => match t.section {
            Some(s) => spec_find(dir, s, 0) is Some,
            None => false,
        },
        PageType::Post => match t.section {
            Some(s) => spec_find(dir, s, 0) is Some,
            None => false,
        },
    }
}

/// The first row at or after `from` that serves kind `pt` in `dir`.
pub open spec fn spec_find_row(rows: Seq<TypeModel>, pt: PageType, dir: Seq<char>, from: int) -> Option<
    int,
>
    decreases rows.len() - from + 1,
{
    if from < 0 || from >= rows.len() {
        None
    } else if spec_row_matches(rows[from], pt, dir) {
        Some(from)
    } else {
        spec_find_row(rows, pt, dir, from + 1)
    }
}

/// A page after association: a page not yet associated points at the
/// first type row serving its kind and directory, when one exists.
pub open spec fn spec_page_after_assoc(p: PageModel, rows: Seq<TypeModel>) -> PageModel {
    if p.associated is None {
        match spec_find_row(rows, spec_page_kind(p.path), spec_parent(p.path), 0) {
            Some(k) => PageModel { associated: Some(k), ..p },
            None => p,
        }
    } else {
        p
    }
}

/// A page after context population: a rendered page's context carries
/// its HTML body under `content`.
pub open spec fn spec_page_after_context(p: PageModel) -> PageModel {
    match p.html {
        Some(h) => PageModel { context_content: Some(h), ..p },
        None => p,
    }
}

/// The output a page yields, if it is ready to render: its output path
/// under `out`, the template of its associated row, and its context
/// content.
pub open spec fn spec_render_job(p: PageModel, rows: Seq<TypeModel>, out: Seq<char>) -> Option<
    (Seq<char>, Seq<char>, Seq<char>),
> {
    match (p.associated, p.file_name, p.context_content) {
        (Some(k), Some(f), Some(c)) => if 0 <= k < rows.len() {
            match rows[k].template {
                Some(t) => Some((spec_join(out, spec_with_file_name(p.path, f)), t, c)),
                None => None,
            }
        } else {
            None
        },
        _ => None,
    }
}

/// The output files a run of the pipeline plans, in page order.
pub open spec fn spec_render_jobs(
    pages: Seq<PageModel>,
    rows: Seq<TypeModel>,
    out: Seq<char>,
) -> Seq<(Seq<char>, Seq<char>, Seq<char>)>
    decreases pages.len(),
{
    if pages.len() == 0 {
        Seq::empty()
    } else {
        let rest = spec_render_jobs(pages.drop_last(), rows, out);
        match spec_render_job(pages.last(), rows, out) {
            Some(job) => rest.push(job),
            None => rest,
        }
    }
}

/// One planned output file: where to write it and what to render.
#[derive(Debug)]
pub struct RenderJob {
    /// The output path.
    pub output_path: String,
    /// The template path to render through.
    pub template: String,
    /// The `content` entry of the template context.
    pub content: String,
}

impl TeraProcessor {
    /// A template processor.
    pub fn new() -> (r: Self) {
        TeraProcessor { _private: () }
    }

    /// Names a template for every page-type row that has none yet.
    pub fn index_templates(state: &mut SiteState)
        ensures
            final(state)@.page_types.len() == old(state)@.page_types.len(),
            forall|i: int|
                0 <= i < old(state)@.page_types.len() ==> final(state)@.page_types[i]
                    == spec_row_after_index(#[trigger] old(state)@.page_types[i]),
            final(state)@.pages == old(state)@.pages,
            final(state)@.file_config == old(state)@.file_config,
            final(state)@.content_dir == old(state)@.content_dir,
            final(state)@.output_dir == old(state)@.output_dir,
    {
        let ghost rows0 = old(state)@.page_types;
        let n = state.page_types.len();
        let mut i: usize = 0;
        while i < n
            invariant
                n == state.page_types@.len(),
                rows0.len() == n,
                i <= n,
                forall|k: int|
                    0 <= k < i ==> (#[trigger] state.page_types@[k])@ == spec_row_after_index(
                        rows0[k],
                    ),
                forall|k: int| i <= k < n ==> (#[trigger] state.page_types@[k])@ == rows0[k],
                state.pages@ == old(state).pages@,
                state.file_config == old(state).file_config,
                state.content_dir == old(state).content_dir,
                state.output_dir == old(state).output_dir,
            decreases n - i,
        {
            let has_template = match &state.page_types[i].template {
                Some(_) => true,
                None => false,
            };
            if !has_template {
                let kind = state.page_types[i].kind;
                match kind {
                    PageType::Index | PageType::Page => {
                        let name = kind.as_str().to_owned().concat(".html");
                        state.page_types[i].template = Some(name);
                    },
                    PageType::Section | PageType::Post => {
                        let section_name: Option<String> = match &state.page_types[i].section {
                            Some(s) => Some(s.as_str().to_owned()),
                            None => None,
                        };
                        match section_name {
                            Some(s) => {
                                let name = s.concat("/").concat(kind.as_str()).concat(".html");
                                state.page_types[i].template = Some(name);
                            },
                            None => {},
                        }
                    },
                }
            }
            i = i + 1;
        }
    }

    /// Associates every page that is not yet associated with the first
    /// registered type row serving its kind and directory.
    pub fn associate_pages_to_templates(state: &mut SiteState)
        ensures
            final(state)@.pages.len() == old(state)@.pages.len(),
            forall|i: int|
                0 <= i < old(state)@.pages.len() ==> final(state)@.pages[i]
                    == spec_page_after_assoc(
                    #[trigger] old(state)@.pages[i],
                    old(state)@.page_types,
                ),
            final(state)@.page_types == old(state)@.page_types,
            final(state)@.file_config == old(state)@.file_config,
            final(state)@.content_dir == old(state)@.content_dir,
            final(state)@.output_dir == old(state)@.output_dir,
    {
        let ghost pages0 = old(state)@.pages;
        let ghost rows = old(state)@.page_types;
        let n = state.pages.len();
        let mut i: usize = 0;
        while i < n
            invariant
                n == state.pages@.len(),
                pages0.len() == n,
                i <= n,
                rows == state.page_types@.map_values(|t: TypeRow| t@),
                forall|k: int|
                    0 <= k < i ==> (#[trigger] state.pages@[k])@ == spec_page_after_assoc(
                        pages0[k],
                        rows,
                    ),
                forall|k: int| i <= k < n ==> (#[trigger] state.pages@[k])@ == pages0[k],
                state.page_types@ == old(state).page_types@,
                state.file_config == old(state).file_config,
                state.content_dir == old(state).content_dir,
                state.output_dir == old(state).output_dir,
            decreases n - i,
        {
            let gate = match &state.pages[i].associated {
                Some(_) => false,
                None => true,
            };
            if gate {
                let path: String = state.pages[i].path.as_str().to_owned();
                let dir = parent_of(path.as_str());
                let name = file_name_of(path.as_str());
                let is_root = str_len(dir.as_str()) == 0;
                let is_listing = string_eq(name.as_str(), "_index.md");
                let page_type = if is_root && is_listing {
                    PageType::Index
                } else if is_root && !is_listing {
                    PageType::Page
                } else if !is_root && is_listing {
                    PageType::Section
                } else {
                    PageType::Post
                };
                match find_matching_row(&state.page_types, page_type, dir.as_str()) {
                    Some(k) => {
                        state.pages[i].associated = Some(k);
                    },
                    None => {},
                }
            }
            i = i + 1;
        }
    }

    /// Copies every rendered page's HTML body into its template context
    /// under `content`.
    pub fn populate_context(state: &mut SiteState)
        ensures
            final(state)@.pages.len() == old(state)@.pages.len(),
            forall|i: int|
                0 <= i < old(state)@.pages.len() ==> final(state)@.pages[i]
                    == spec_page_after_context(#[trigger] old(state)@.pages[i]),
            final(state)@.page_types == old(state)@.page_types,
            final(state)@.file_config == old(state)@.file_config,
            final(state)@.content_dir == old(state)@.content_dir,
            final(state)@.output_dir == old(state)@.output_dir,
    {
        let ghost pages0 = old(state)@.pages;
        let n = state.pages.len();
        let mut i: usize = 0;
        while i < n
            invariant
                n == state.pages@.len(),
                pages0.len() == n,
                i <= n,
                forall|k: int|
                    0 <= k < i ==> (#[trigger] state.pages@[k])@ == spec_page_after_context(
                        pages0[k],
                    ),
                forall|k: int| i <= k < n ==> (#[trigger] state.pages@[k])@ == pages0[k],
                state.page_types@ == old(state).page_types@,
                state.file_config == old(state).file_config,
                state.content_dir == old(state).content_dir,
                state.output_dir == old(state).output_dir,
            decreases n - i,
        {
            let html: Option<String> = match &state.pages[i].html {
                Some(h) => Some(h.as_str().to_owned()),
                None => None,
            };
            match html {
                Some(h) => {
                    state.pages[i].context_content = Some(h);
                },
                None => {},
            }
            i = i + 1;
        }
    }

    /// Plans the output files: one job per page that is associated,
    /// named and populated, rendered through its row's template, at its
    /// output path under the configured output directory.  Without an
    /// output directory nothing can be planned.
    pub fn process_pages(state: &SiteState) -> (r: Vec<RenderJob>)
        ensures
            match state@.output_dir {
                Some(out) => jobs_match(r@, spec_render_jobs(state@.pages, state@.page_types, out)),
                None => r@.len() == 0,
            },
    {
        let mut jobs: Vec<RenderJob> = Vec::new();
        let out: String = match &state.output_dir {
            Some(o) => o.path().to_owned(),
            None => {
                return jobs;
            },
        };
        let n = state.pages.len();
        let mut i: usize = 0;
        proof {
            assert(state@.pages.subrange(0, 0) =~= Seq::<PageModel>::empty());
        }
        while i < n
            invariant
                n == state@.pages.len(),
                i <= n,
                state@.output_dir == Some(out@),
                jobs_match(
                    jobs@,
                    spec_render_jobs(state@.pages.subrange(0, i as int), state@.page_types, out@),
                ),
            decreases n - i,
        {
            let ghost prefix = state@.pages.subrange(0, i as int);
            let page = &state.pages[i];
            let ready: bool = match (&page.associated, &page.file_name, &page.context_content) {
                (Some(k), Some(_), Some(_)) => *k < state.page_types.len(),
                _ => false,
            };
            if ready {
                let k = match &page.associated {
                    Some(k) => *k,
                    None => 0,
                };
                let template: Option<String> = match &state.page_types[k].template {
                    Some(t) => Some(t.clone()),
                    None => None,
                };
                match template {
                    Some(t) => {
                        let f: String = match &page.file_name {
                            Some(f) => f.0.clone(),
                            None => String::new(),
                        };
                        let c: String = match &page.context_content {
                            Some(c) => c.clone(),
                            None => String::new(),
                        };
                        let rel = with_file_name(page.path.as_str(), f.as_str());
                        let output_path = join_path(out.as_str(), rel.as_str());
                        jobs.push(RenderJob { output_path, template: t, content: c });
                    },
                    None => {},
                }
            }
            i = i + 1;
            proof {
                assert(state@.pages.subrange(0, i as int).drop_last() =~= prefix);
                assert(state@.pages.subrange(0, i as int).last() == state@.pages[i - 1]);
            }
        }
        proof {
            assert(state@.pages.subrange(0, n as int) =~= state@.pages);
        }
        jobs
    }
}

impl Default for TeraProcessor {
    /// A template processor.
    fn default() -> (r: Self) {
        Self::new()
    }
}

/// `jobs` plans exactly the outputs `model` lists, in order.
pub open spec fn jobs_match(
    jobs: Seq<RenderJob>,
    model: Seq<(Seq<char>, Seq<char>, Seq<char>)>,
) -> bool {
    &&& jobs.len() == model.len()
    &&& forall|k: int|
        0 <= k < jobs.len() ==> (#[trigger] jobs[k]).output_path@ == model[k].0
            && jobs[k].template@ == model[k].1 && jobs[k].content@ == model[k].2
}

/// The directory of `path`.
pub fn parent_of(path: &str) -> (r: String)
    ensures
        r@ == spec_parent(path@),
{
    match rfind_char(path, '/') {
        Some(i) => substring(path, 0, i),
        None => {
            proof {
                assert(Seq::<char>::empty() =~= path@.subrange(0, 0));
            }
            substring(path, 0, 0)
        },
    }
}

/// `path` with its final component replaced by `name`.
pub fn with_file_name(path: &str, name: &str) -> (r: String)
    ensures
        r@ == spec_with_file_name(path@, name@),
{
    let path_chars = str_len(path);
    match rfind_char(path, '/') {
        Some(i) => {
            let head = substring(path, 0, i + 1);
            head.concat(name)
        },
        None => name.to_owned(),
    }
}

/// `dir` and `rel` joined with a single separator.
pub fn join_path(dir: &str, rel: &str) -> (r: String)
    ensures
        r@ == spec_join(dir@, rel@),
{
    let dir_len = str_len(dir);
    if dir_len == 0 {
        rel.to_owned()
    } else if dir.get_char(dir_len - 1) == '/' {
        dir.to_owned().concat(rel)
    } else {
        let r = dir.to_owned().concat("/").concat(rel);
        proof {
            assert(r@ =~= dir@ + "/"@ + rel@);
        }
        r
    }
}

/// Whether two strings hold the same characters.
fn string_eq(a: &str, b: &str) -> (r: bool)
    ensures
        r == (a@ == b@),
{
    let sa = a.to_owned();
    let sb = b.to_owned();
    sa == sb
}

/// The first type row at or after `from` serving kind `pt` in `dir`.
fn find_matching_row(rows: &Vec<TypeRow>, pt: PageType, dir: &str) -> (r: Option<usize>)
    ensures
        match r {
            Some(k) => k < rows@.len() && spec_find_row(
                rows@.map_values(|t: TypeRow| t@),
                pt,
                dir@,
                0,
            ) == Some(k as int),
            None => spec_find_row(rows@.map_values(|t: TypeRow| t@), pt, dir@, 0) is None,
        },
{
    let n = rows.len();
    let mut i: usize = 0;
    while i < n
        invariant
            n == rows@.len(),
            i <= n,
            spec_find_row(rows@.map_values(|t: TypeRow| t@), pt, dir@, 0) == spec_find_row(
                rows@.map_values(|t: TypeRow| t@),
                pt,
                dir@,
                i as int,
            ),
        decreases n - i,
    {
        let row = &rows[i];
        let kind_matches = row.kind == pt;
        let matches_row: bool;
        if kind_matches {
            match pt {
                PageType::Index | PageType::Page => {
                    matches_row = true;
                },
                PageType::Section | PageType::Post => {
                    matches_row = match &row.section {
                        Some(s) => contains_sub(dir, s.as_str()),
                        None => false,
                    };
                },
            }
        } else {
            matches_row = false;
        }
        if matches_row {
            return Some(i);
        }
        i = i + 1;
    }
    None
}

} // verus!
