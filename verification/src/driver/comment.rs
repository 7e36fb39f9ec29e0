use vstd::prelude::*;
use crate::oid::ObjectId;

verus! {

/// A comment under a post; `reject` names the comment it answers.
#[derive(Debug, Clone)]
pub struct Comment {
    pub id: Option<ObjectId>,
    pub author: String,
    pub text: String,
    pub reject: Option<ObjectId>,
}

} // verus!
