use vstd::prelude::*;
use crate::text::{split_by, split_on, views};

verus! {

/// The outward form of a post, with its tags as a list.
#[derive(Debug, Clone)]
pub struct Post {
    pub label: String,
    pub underlabel: String,
    pub text: String,
    pub footer: String,
    pub tags: Vec<String>,
}

impl Post {
    /// Builds the outward form; `tags` is a comma-separated list.
    pub fn new(label: String, underlabel: String, text: String, footer: String, tags: String) -> (r: Self)
        ensures
            r.label == label,
            r.underlabel == underlabel,
            r.text == text,
            r.footer == footer,
            views(r.tags@) == split_on(tags@, ','),
    {
        let tags = split_by(tags.as_str(), ',');
        Self { label, underlabel, text, footer, tags }
    }
}

} // verus!
