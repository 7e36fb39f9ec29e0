use vstd::prelude::*;
use crate::oid::ObjectId;
use crate::comments::comment::Comment;

verus! {

/// A stored post.
#[derive(Debug, Clone)]
pub struct Post {
    pub id: Option<ObjectId>,
    pub author: Vec<String>,
    pub date: u64,
    pub underlabel: String,
    pub label: String,
    pub text: String,
    pub footer: String,
    pub tags: Vec<String>,
    pub comments: Vec<Comment>,
}

/// What a client sends to create or edit a post: no date, no comments.
#[derive(Debug, Clone)]
pub struct PostCreate {
    pub id: Option<ObjectId>,
    pub author: Vec<String>,
    pub underlabel: String,
    pub label: String,
    pub text: String,
    pub footer: String,
    pub tags: Vec<String>,
}

} // verus!
