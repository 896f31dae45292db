//! Extension points for collaborators outside the scheduler core.

use vstd::prelude::*;

use crate::store::PageRecord;

verus! {

/// Extracts typed fields out of a page's parsed front matter.
///
/// Implementations are collaborator code: the pipeline calls them and
/// assumes nothing about what they attach.
pub trait Extractor: Sized {
    /// Attaches whatever fields the extractor reads from the page.
    fn extract(&self, page: &mut PageRecord);

    /// Attaches whatever fields the extractor derives from the page's
    /// source path.
    fn extract_from_path(&self, page: &mut PageRecord, path: &str);
}

} // verus!
