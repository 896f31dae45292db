//! The shared state of a site build, and the commands background tasks
//! apply to it.
//!
//! The store is a registry: one record per page, one row per registered
//! page type, and the file configuration.  Phase work units read and
//! write it directly; background tasks reach it only through
//! [`SiteCommand`]s applied at a phase barrier.

use vstd::prelude::*;

use crate::command::Mutation;
use crate::file::{EnumeratedSections, FileName, FilePath, HtmlBody, PageType, SectionName};
use crate::front_matter::{Date, Title};
use crate::processor::{ContentDir, MarkdownFrontMatter, MarkdownPost, OutputDir};

verus! {

/// The mathematical model of one page record.
#[verifier::ext_equal]
pub struct PageModel {
    /// The source path, relative to the content directory.
    pub path: Seq<char>,
    /// The raw file text, when loaded.
    pub source: Option<Seq<char>>,
    /// The markdown body, once split from the front matter.
    pub body: Option<Seq<char>>,
    /// Whether a front-matter table was parsed for the page.
    pub has_matter: bool,
    /// Whether the front matter has been extracted into fields.
    pub parsed: bool,
    /// The rendered HTML body.
    pub html: Option<Seq<char>>,
    /// The output file name.
    pub file_name: Option<Seq<char>>,
    /// The page's title, as rendered from the front matter.
    pub title: Option<Seq<char>>,
    /// The page's date, as rendered from the front matter.
    pub date: Option<Seq<char>>,
    /// Whether the page is a draft.
    pub draft: bool,
    /// The index of the page-type row this page renders through.
    pub associated: Option<int>,
    /// The `content` entry of the page's template context.
    pub context_content: Option<Seq<char>>,
}

/// The mathematical model of one page-type row.
#[verifier::ext_equal]
pub struct TypeModel {
    /// The page type.
    pub kind: PageType,
    /// The section the row belongs to, for section and post rows.
    pub section: Option<Seq<char>>,
    /// The template path rendered for this row.
    pub template: Option<Seq<char>>,
}

/// The mathematical model of the whole store.
#[verifier::ext_equal]
pub struct SiteModel {
    /// The page records, in load order.
    pub pages: Seq<PageModel>,
    /// The page-type rows, in registration order.
    pub page_types: Seq<TypeModel>,
    /// Whether a file configuration was applied.
    pub file_config: bool,
    /// The configured content directory.
    pub content_dir: Option<Seq<char>>,
    /// The configured output directory.
    pub output_dir: Option<Seq<char>>,
}

/// One page of the site: the source file and every field attached to it
/// as the phases progress.
pub struct PageRecord {
    /// The source path, relative to the content directory.
    pub path: FilePath,
    /// The raw file text, when loaded.
    pub source: Option<MarkdownPost>,
    /// The markdown body, once split from the front matter.
    pub body: Option<String>,
    /// The parsed front-matter table.
    pub matter: Option<MarkdownFrontMatter>,
    /// Whether the front matter has been extracted into fields.
    pub parsed: bool,
    /// The rendered HTML body.
    pub html: Option<HtmlBody>,
    /// The output file name.
    pub file_name: Option<FileName>,
    /// The page's title.
    pub title: Option<Title>,
    /// The page's date.
    pub date: Option<Date>,
    /// Whether the page is a draft.
    pub draft: bool,
    /// The index of the page-type row this page renders through.
    pub associated: Option<usize>,
    /// The `content` entry of the page's template context.
    pub context_content: Option<String>,
}

impl PageRecord {
    /// A fresh record for a page read from `path` with text `source`.
    pub fn new(path: FilePath, source: MarkdownPost) -> (r: PageRecord)
        ensures
            r@ == spec_new_page(path@, source.0@),
    {
        PageRecord {
            path,
            source: Some(source),
            body: None,
            matter: None,
            parsed: false,
            html: None,
            file_name: None,
            title: None,
            date: None,
            draft: false,
            associated: None,
            context_content: None,
        }
    }
}

/// The model of a freshly loaded page.
pub open spec fn spec_new_page(path: Seq<char>, source: Seq<char>) -> PageModel {
    PageModel {
        path,
        source: Some(source),
        body: None,
        has_matter: false,
        parsed: false,
        html: None,
        file_name: None,
        title: None,
        date: None,
        draft: false,
        associated: None,
        context_content: None,
    }
}

impl View for PageRecord {
    type V = PageModel;

    open spec fn view(&self) -> PageModel {
        PageModel {
            path: self.path@,
            source: match self.source {
                Some(s) => Some(s.0@),
                None => None,
            },
            body: match self.body {
                Some(b) => Some(b@),
                None => None,
            },
            has_matter: match self.matter {
                Some(m) => m.spec_has_table(),
                None => false,
            },
            parsed: self.parsed,
            html: match self.html {
                Some(h) => Some(h@),
                None => None,
            },
            file_name: match self.file_name {
                Some(f) => Some(f.0@),
                None => None,
            },
            title: match self.title {
                Some(t) => Some(t.0@),
                None => None,
            },
            date: match self.date {
                Some(d) => Some(d.0@),
                None => None,
            },
            draft: self.draft,
            associated: match self.associated {
                Some(a) => Some(a as int),
                None => None,
            },
            context_content: match self.context_content {
                Some(c) => Some(c@),
                None => None,
            },
        }
    }
}

/// One page-type row: a registered way of rendering and addressing
/// pages.
pub struct TypeRow {
    /// The page type.
    pub kind: PageType,
    /// The section the row belongs to, for section and post rows.
    pub section: Option<SectionName>,
    /// The template path rendered for this row.
    pub template: Option<String>,
}

impl View for TypeRow {
    type V = TypeModel;

    open spec fn view(&self) -> TypeModel {
        TypeModel {
            kind: self.kind,
            section: match self.section {
                Some(s) => Some(s@),
                None => None,
            },
            template: match self.template {
                Some(t) => Some(t@),
                None => None,
            },
        }
    }
}

/// The shared state of a site build.
pub struct SiteState {
    /// The page records, in load order.
    pub pages: Vec<PageRecord>,
    /// The page-type rows, in registration order.
    pub page_types: Vec<TypeRow>,
    /// Whether a file configuration was applied.
    pub file_config: bool,
    /// The configured content directory.
    pub content_dir: Option<ContentDir>,
    /// The configured output directory.
    pub output_dir: Option<OutputDir>,
}

impl View for SiteState {
    type V = SiteModel;

    open spec fn view(&self) -> SiteModel {
        SiteModel {
            pages: self.pages@.map_values(|p: PageRecord| p@),
            page_types: self.page_types@.map_values(|t: TypeRow| t@),
            file_config: self.file_config,
            content_dir: match self.content_dir {
                Some(c) => Some(c@),
                None => None,
            },
            output_dir: match self.output_dir {
                Some(o) => Some(o@),
                None => None,
            },
        }
    }
}

impl SiteState {
    /// An empty store: no pages, no page types, no configuration.
    pub fn new() -> (r: SiteState)
        ensures
            r@.pages == Seq::<PageModel>::empty(),
            r@.page_types == Seq::<TypeModel>::empty(),
            !r@.file_config,
            r@.content_dir is None,
            r@.output_dir is None,
    {
        let r = SiteState {
            pages: Vec::new(),
            page_types: Vec::new(),
            file_config: false,
            content_dir: None,
            output_dir: None,
        };
        proof {
            assert(r@.pages =~= Seq::<PageModel>::empty());
            assert(r@.page_types =~= Seq::<TypeModel>::empty());
        }
        r
    }
}

/// A mutation of the store, produced by a background task and applied
/// at a phase barrier.
pub enum SiteCommand {
    /// The file configuration read during preload.
    Config {
        /// The configured content directory, if any.
        content: Option<String>,
        /// The configured output directory, if any.
        output: Option<String>,
    },
    /// A content section discovered on disk: registers its post and
    /// section page types.
    Section(EnumeratedSections),
    /// Pages read from the content directory.
    Pages(Vec<(FilePath, MarkdownPost)>),
}

/// The model of the two page-type rows a discovered section registers.
pub open spec fn spec_section_rows(stem: Seq<char>) -> Seq<TypeModel> {
    seq![
        TypeModel { kind: PageType::Post, section: Some(stem), template: None },
        TypeModel { kind: PageType::Section, section: Some(stem), template: None },
    ]
}

impl Mutation<SiteState> for SiteCommand {
    open spec fn effect(self, s: SiteModel) -> SiteModel {
        match self {
            SiteCommand::Config { content, output } => SiteModel {
                file_config: true,
                content_dir: match content {
                    Some(c) => Some(c@),
                    None => None,
                },
                output_dir: match output {
                    Some(o) => Some(o@),
                    None => None,
                },
                ..s
            },
            SiteCommand::Section(es) => SiteModel {
                page_types: s.page_types + spec_section_rows(es.0@),
                ..s
            },
            SiteCommand::Pages(files) => SiteModel {
                pages: s.pages + files@.map_values(
                    |f: (FilePath, MarkdownPost)| spec_new_page(f.0@, f.1.0@),
                ),
                ..s
            },
        }
    }

    fn apply(self, state: &mut SiteState) {
        match self {
            SiteCommand::Config { content, output } => {
                state.file_config = true;
                state.content_dir = match content {
                    Some(c) => Some(ContentDir::new(c)),
                    None => None,
                };
                state.output_dir = match output {
                    Some(o) => Some(OutputDir::new(o)),
                    None => None,
                };
            },
            SiteCommand::Section(es) => {
                let ghost before = state.page_types@;
                let stem = es.0;
                state.page_types.push(
                    TypeRow {
                        kind: PageType::Post,
                        section: Some(SectionName::new(stem.clone())),
                        template: None,
                    },
                );
                state.page_types.push(
                    TypeRow {
                        kind: PageType::Section,
                        section: Some(SectionName::new(stem)),
                        template: None,
                    },
                );
                proof {
                    assert(state.page_types@.map_values(|t: TypeRow| t@) =~= before.map_values(
                        |t: TypeRow| t@,
                    ) + spec_section_rows(es.0@));
                }
            },
            SiteCommand::Pages(files) => {
                let ghost files0 = files@;
                let ghost before = state.pages@;
                let mut files = files;
                while files.len() > 0
                    invariant
                        state.pages@.map_values(|p: PageRecord| p@) + files@.map_values(
                            |f: (FilePath, MarkdownPost)| spec_new_page(f.0@, f.1.0@),
                        ) =~= before.map_values(|p: PageRecord| p@) + files0.map_values(
                            |f: (FilePath, MarkdownPost)| spec_new_page(f.0@, f.1.0@),
                        ),
                        state.page_types@ == old(state).page_types@,
                        state.file_config == old(state).file_config,
                        state.content_dir == old(state).content_dir,
                        state.output_dir == old(state).output_dir,
                    decreases files.len(),
                {
                    let (path, source) = files.remove(0);
                    state.pages.push(PageRecord::new(path, source));
                    proof {
                        assert(state.pages@.map_values(|p: PageRecord| p@) + files@.map_values(
                            |f: (FilePath, MarkdownPost)| spec_new_page(f.0@, f.1.0@),
                        ) =~= before.map_values(|p: PageRecord| p@) + files0.map_values(
                            |f: (FilePath, MarkdownPost)| spec_new_page(f.0@, f.1.0@),
                        ));
                    }
                }
                proof {
                    assert(files@.map_values(|f: (FilePath, MarkdownPost)| spec_new_page(f.0@, f.1.0@))
                        =~= Seq::<PageModel>::empty());
                    assert(state.pages@.map_values(|p: PageRecord| p@) =~= before.map_values(
                        |p: PageRecord| p@,
                    ) + files0.map_values(|f: (FilePath, MarkdownPost)| spec_new_page(f.0@, f.1.0@)));
                }
            },
        }
    }
}

} // verus!
