//! The fields a page's front matter can attach to it.

use vstd::prelude::*;

verus! {

/// The page's title.
#[derive(Debug, Clone)]
pub struct Title(pub String);

/// The page's date, as written in the front matter.
#[derive(Debug, Clone)]
pub struct Date(pub String);

/// Marks a page as a draft.
#[derive(Debug, Clone, Copy)]
pub struct Draft;

impl Default for Title {
    /// An empty title.
    fn default() -> (r: Self)
        ensures
            r.0@ == Seq::<char>::empty(),
    {
        Title(String::new())
    }
}

impl Default for Date {
    /// An empty date.
    fn default() -> (r: Self)
        ensures
            r.0@ == Seq::<char>::empty(),
    {
        Date(String::new())
    }
}

} // verus!
