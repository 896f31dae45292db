pub mod configuration;
pub mod markdown;
pub mod tera;

pub use configuration::{ConfigurationProcessor, ContentDir, FileConfig, OutputDir};
pub use markdown::{html_of, MarkdownFrontMatter, MarkdownPost, MarkdownProcessor};
pub use tera::{RenderJob, TeraProcessor};
