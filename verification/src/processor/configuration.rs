//! The configuration processor: reads the site's configuration file
//! during preload and registers the base page types during load.
//!
//! Reading the file itself is background I/O; the processor's verified
//! core turns the text that was read into the commands the barrier
//! applies, and registers what needs no I/O directly.

use vstd::prelude::*;

use crate::command::CommandQueue;
use crate::file::{spec_file_name, spec_file_stem, EnumeratedSections, PageType};
use crate::store::{SiteState, SiteCommand, TypeModel, TypeRow};
use crate::toml_ext::{parse_table, table_get, toml_parses, value_as_str, value_as_table};

verus! {

/// Builds the site configuration: where the content lives and where the
/// output goes.
#[derive(Debug, Clone)]
pub struct ConfigurationProcessor(String);

impl ConfigurationProcessor {
    /// The path of the configuration file.
    pub closed spec fn spec_path(&self) -> Seq<char> {
        self.0@
    }

    /// A processor reading the configuration file at `path`.
    pub fn new(path: &str) -> (r: Self)
        ensures
            r.spec_path() == path@,
    {
        ConfigurationProcessor(path.to_owned())
    }

    /// The path of the configuration file.
    pub fn path(&self) -> (r: &str)
        ensures
            r@ == self.spec_path(),
    {
        self.0.as_str()
    }

    /// The compute core of the preload task: turns the configuration
    /// text that was read from disk into the command the barrier
    /// applies.  Text that does not parse as TOML, or carries no
    /// `files` table, configures nothing.
    pub fn config_commands(text: &str) -> (r: CommandQueue<SiteCommand>)
        ensures
            r@.len() <= 1,
            !toml_parses(text@) ==> r@.len() == 0,
            forall|k: int| 0 <= k < r@.len() ==> (#[trigger] r@[k]) is Config,
    {
        let mut queue: CommandQueue<SiteCommand> = CommandQueue::new();
        match parse_table(text) {
            Some(table) => {
                match table_get(&table, "files") {
                    Some(files_value) => {
                        match value_as_table(files_value) {
                            Some(files) => {
                                let content = match table_get(files, "content") {
                                    Some(v) => value_as_str(v),
                                    None => None,
                                };
                                let output = match table_get(files, "output") {
                                    Some(v) => value_as_str(v),
                                    None => None,
                                };
                                queue.push(SiteCommand::Config { content, output });
                            },
                            None => {},
                        }
                    },
                    None => {},
                }
            },
            None => {},
        }
        queue
    }

    /// Registers the two page types every site has: the front page and
    /// standalone pages.  The section scan that finds the others is
    /// background I/O.
    pub fn init_section_page_types(state: &mut SiteState)
        ensures
            final(state)@.page_types == old(state)@.page_types + seq![
                (TypeModel { kind: PageType::Index, section: None, template: None }),
                (TypeModel { kind: PageType::Page, section: None, template: None }),
            ],
            final(state)@.pages == old(state)@.pages,
            final(state)@.file_config == old(state)@.file_config,
            final(state)@.content_dir == old(state)@.content_dir,
            final(state)@.output_dir == old(state)@.output_dir,
    {
        let ghost before = state.page_types@;
        state.page_types.push(TypeRow { kind: PageType::Index, section: None, template: None });
        state.page_types.push(TypeRow { kind: PageType::Page, section: None, template: None });
        proof {
            assert(state.page_types@.map_values(|t: TypeRow| t@) =~= before.map_values(
                |t: TypeRow| t@,
            ) + seq![
                (TypeModel { kind: PageType::Index, section: None, template: None }),
                (TypeModel { kind: PageType::Page, section: None, template: None }),
            ]);
        }
    }

    /// The compute core of the section scan: one section-registration
    /// command per first-level directory that has a file stem.
    pub fn section_commands(dirs: &Vec<String>) -> (r: CommandQueue<SiteCommand>)
        ensures
            cmds_match_stems(r@, spec_section_stems(dirs@.map_values(|d: String| d@))),
    {
        let mut queue: CommandQueue<SiteCommand> = CommandQueue::new();
        let mut i: usize = 0;
        let n = dirs.len();
        proof {
            assert(dirs@.map_values(|d: String| d@).subrange(0, 0) =~= Seq::<Seq<char>>::empty());
        }
        while i < n
            invariant
                n == dirs@.len(),
                i <= n,
                cmds_match_stems(
                    queue@,
                    spec_section_stems(dirs@.map_values(|d: String| d@).subrange(0, i as int)),
                ),
            decreases n - i,
        {
            let ghost views = dirs@.map_values(|d: String| d@);
            let ghost prefix = views.subrange(0, i as int);
            match EnumeratedSections::new(dirs[i].clone()) {
                Some(section) => {
                    queue.push(SiteCommand::Section(section));
                },
                None => {},
            }
            i = i + 1;
            proof {
                assert(views.subrange(0, i as int).drop_last() =~= prefix);
                assert(views.subrange(0, i as int).last() == views[i - 1]);
            }
        }
        proof {
            assert(dirs@.map_values(|d: String| d@).subrange(0, n as int) =~= dirs@.map_values(
                |d: String| d@,
            ));
        }
        queue
    }
}

/// The stems of the paths that have one, in order: the sections a scan
/// of those directories registers.
pub open spec fn spec_section_stems(dirs: Seq<Seq<char>>) -> Seq<Seq<char>>
    decreases dirs.len(),
{
    if dirs.len() == 0 {
        Seq::empty()
    } else {
        let rest = spec_section_stems(dirs.drop_last());
        match spec_file_stem(spec_file_name(dirs.last())) {
            Some(stem) => rest.push(stem),
            None => rest,
        }
    }
}

/// `cmds` registers exactly the sections named by `stems`, in order.
pub open spec fn cmds_match_stems(cmds: Seq<SiteCommand>, stems: Seq<Seq<char>>) -> bool {
    &&& cmds.len() == stems.len()
    &&& forall|k: int|
        0 <= k < cmds.len() ==> (#[trigger] cmds[k] matches SiteCommand::Section(es) && es.0@
            == stems[k])
}

/// The directory the site's source documents are read from.
#[derive(Debug, Clone)]
pub struct ContentDir(String);

impl ContentDir {
    /// Wraps a directory path.
    pub fn new(dir: String) -> (r: Self)
        ensures
            r@ == dir@,
    {
        ContentDir(dir)
    }

    /// The directory as a path string.
    pub fn path(&self) -> (r: &str)
        ensures
            r@ == self@,
    {
        self.0.as_str()
    }
}

impl View for ContentDir {
    type V = Seq<char>;

    closed spec fn view(&self) -> Seq<char> {
        self.0@
    }
}

/// Marks that a file configuration has been applied.
#[derive(Debug, Clone, Copy)]
pub struct FileConfig;

/// The directory rendered output is written to.
#[derive(Debug, Clone)]
pub struct OutputDir(String);

impl OutputDir {
    /// Wraps a directory path.
    pub fn new(dir: String) -> (r: Self)
        ensures
            r@ == dir@,
    {
        OutputDir(dir)
    }

    /// The directory as a path string.
    pub fn path(&self) -> (r: &str)
        ensures
            r@ == self@,
    {
        self.0.as_str()
    }
}

impl View for OutputDir {
    type V = Seq<char>;

    closed spec fn view(&self) -> Seq<char> {
        self.0@
    }
}

} // verus!
