use webvy::command::CommandQueue;
use webvy::file::{EnumeratedSections, FilePath, PageType};
use webvy::matterparser::Parser;
use webvy::processor::{ConfigurationProcessor, MarkdownPost, TeraProcessor};
use webvy::store::{SiteCommand, SiteState, TypeRow};

fn apply_all(mut queue: CommandQueue<SiteCommand>, state: &mut SiteState) {
    queue.apply(state);
}

#[test]
fn configuration_text_reaches_the_store() {
    let text = "[files]\ncontent = \"content\"\noutput = \"public\"\n";
    let queue = ConfigurationProcessor::config_commands(text);

    let mut state = SiteState::new();
    apply_all(queue, &mut state);

    assert!(state.file_config);
    assert_eq!(state.content_dir.as_ref().unwrap().path(), "content");
    assert_eq!(state.output_dir.as_ref().unwrap().path(), "public");
}

#[test]
fn unparsable_configuration_configures_nothing() {
    let queue = ConfigurationProcessor::config_commands("not [valid");
    assert_eq!(queue.len(), 0);

    let queue = ConfigurationProcessor::config_commands("unrelated = true");
    assert_eq!(queue.len(), 0);
}

#[test]
fn base_page_types_are_registered_directly() {
    let mut state = SiteState::new();
    ConfigurationProcessor::init_section_page_types(&mut state);

    assert_eq!(state.page_types.len(), 2);
    assert_eq!(state.page_types[0].kind, PageType::Index);
    assert_eq!(state.page_types[1].kind, PageType::Page);
}

#[test]
fn discovered_sections_register_post_and_section_rows() {
    let dirs = vec![String::from("content/posts"), String::from("content/notes")];
    let queue = ConfigurationProcessor::section_commands(&dirs);

    let mut state = SiteState::new();
    apply_all(queue, &mut state);

    let names: Vec<(PageType, String)> = state
        .page_types
        .iter()
        .map(|t| (t.kind, t.section.as_ref().unwrap().as_str().to_string()))
        .collect();
    assert_eq!(
        names,
        vec![
            (PageType::Post, "posts".to_string()),
            (PageType::Section, "posts".to_string()),
            (PageType::Post, "notes".to_string()),
            (PageType::Section, "notes".to_string()),
        ]
    );
}

#[test]
fn enumerated_sections_use_the_file_stem() {
    assert_eq!(EnumeratedSections::new("content/posts".to_string()).unwrap().0, "posts");
    assert_eq!(EnumeratedSections::new("archive.tar.gz".to_string()).unwrap().0, "archive.tar");
    assert!(EnumeratedSections::new("content/".to_string()).is_none());
}

#[test]
fn loaded_pages_are_stored_under_relative_paths() {
    let files = vec![
        ("content/posts/a.md".to_string(), "+++\n+++\nA".to_string()),
        ("content/_index.md".to_string(), "+++\n+++\nHome".to_string()),
    ];
    let queue = webvy::processor::markdown::page_commands("content", files);

    let mut state = SiteState::new();
    apply_all(queue, &mut state);

    let paths: Vec<&str> = state.pages.iter().map(|p| p.path.as_str()).collect();
    assert_eq!(paths, vec!["posts/a.md", "_index.md"]);
}

fn loaded_state() -> SiteState {
    let files = vec![
        (
            "content/posts/first.md".to_string(),
            "+++\ntitle = \"First\"\ndraft = true\n+++\n# First\n".to_string(),
        ),
        ("content/posts/_index.md".to_string(), "+++\n+++\nPosts\n".to_string()),
        ("content/_index.md".to_string(), "+++\n+++\nHome\n".to_string()),
    ];
    let mut state = SiteState::new();
    apply_all(webvy::processor::markdown::page_commands("content", files), &mut state);
    ConfigurationProcessor::init_section_page_types(&mut state);
    apply_all(
        ConfigurationProcessor::section_commands(&vec!["content/posts".to_string()]),
        &mut state,
    );
    state
}

#[test]
fn markdown_pages_split_extract_and_render() {
    let mut state = loaded_state();
    let parser = Parser::default();

    webvy::processor::markdown::parse_page_format(&mut state, &parser);
    assert_eq!(state.pages[0].body.as_deref(), Some("# First"));

    webvy::processor::markdown::parse_frontmatter(&mut state);
    assert_eq!(state.pages[0].file_name.as_ref().unwrap().0, "first.html");
    assert_eq!(state.pages[1].file_name.as_ref().unwrap().0, "index.html");
    assert!(state.pages[0].parsed);
    assert!(state.pages[0].draft);
    assert_eq!(state.pages[0].title.as_ref().unwrap().0, "\"First\"");

    webvy::processor::markdown::convert_markdown_to_html(&mut state);
    assert_eq!(state.pages[0].html.as_ref().unwrap().as_str(), "<h1>First</h1>\n");
}

#[test]
fn templates_are_indexed_and_pages_associated() {
    let mut state = loaded_state();
    let parser = Parser::default();
    webvy::processor::markdown::parse_page_format(&mut state, &parser);
    webvy::processor::markdown::parse_frontmatter(&mut state);
    webvy::processor::markdown::convert_markdown_to_html(&mut state);

    TeraProcessor::index_templates(&mut state);
    let templates: Vec<&str> = state
        .page_types
        .iter()
        .map(|t| t.template.as_deref().unwrap())
        .collect();
    assert_eq!(templates, vec!["index.html", "page.html", "posts/post.html", "posts/section.html"]);

    TeraProcessor::associate_pages_to_templates(&mut state);
    // posts/first.md -> the post row; posts/_index.md -> the section
    // row; _index.md at the root -> the index row.
    assert_eq!(state.pages[0].associated, Some(2));
    assert_eq!(state.pages[1].associated, Some(3));
    assert_eq!(state.pages[2].associated, Some(0));

    TeraProcessor::populate_context(&mut state);
    assert_eq!(state.pages[0].context_content.as_deref(), Some("<h1>First</h1>\n"));
}

#[test]
fn render_jobs_plan_the_output_tree() {
    let mut state = loaded_state();
    let parser = Parser::default();
    webvy::processor::markdown::parse_page_format(&mut state, &parser);
    webvy::processor::markdown::parse_frontmatter(&mut state);
    webvy::processor::markdown::convert_markdown_to_html(&mut state);
    TeraProcessor::index_templates(&mut state);
    TeraProcessor::associate_pages_to_templates(&mut state);
    TeraProcessor::populate_context(&mut state);

    // Without an output directory nothing can be planned.
    assert!(TeraProcessor::process_pages(&state).is_empty());

    let mut config_queue = CommandQueue::new();
    config_queue.push(SiteCommand::Config {
        content: Some("content".to_string()),
        output: Some("public".to_string()),
    });
    apply_all(config_queue, &mut state);

    let jobs = TeraProcessor::process_pages(&state);
    let planned: Vec<(&str, &str)> = jobs
        .iter()
        .map(|j| (j.output_path.as_str(), j.template.as_str()))
        .collect();
    assert_eq!(
        planned,
        vec![
            ("public/posts/first.html", "posts/post.html"),
            ("public/posts/index.html", "posts/section.html"),
            ("public/index.html", "index.html"),
        ]
    );
    assert_eq!(jobs[0].content, "<h1>First</h1>\n");
}

#[test]
fn rows_missing_their_section_are_skipped_when_indexing() {
    let mut state = SiteState::new();
    state.page_types.push(TypeRow { kind: PageType::Post, section: None, template: None });
    TeraProcessor::index_templates(&mut state);
    assert!(state.page_types[0].template.is_none());
}

#[test]
fn markdown_wrapper_really_renders() {
    let mut state = SiteState::new();
    let mut queue = CommandQueue::new();
    queue.push(SiteCommand::Pages(vec![(
        FilePath::new("a.md".to_string()),
        MarkdownPost("+++\n+++\n*emphasis* and `code`".to_string()),
    )]));
    queue.apply(&mut state);

    let parser = Parser::default();
    webvy::processor::markdown::parse_page_format(&mut state, &parser);
    webvy::processor::markdown::convert_markdown_to_html(&mut state);

    assert_eq!(
        state.pages[0].html.as_ref().unwrap().as_str(),
        "<p><em>emphasis</em> and <code>code</code></p>\n"
    );
}
