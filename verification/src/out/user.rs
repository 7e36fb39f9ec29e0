use vstd::prelude::*;
use crate::oid::ObjectId;

verus! {

/// The outward form of an account with the identifiers of its posts.
#[derive(Debug, Clone)]
pub struct User {
    pub name: String,
    pub password: String,
    pub email: String,
    pub posts: Vec<ObjectId>,
}

impl User {
    pub fn new(name: String, password: String, email: String, posts: Vec<ObjectId>) -> (r: Self)
        ensures
            r.name == name,
            r.password == password,
            r.email == email,
            r.posts == posts,
    {
        Self { name, password, email, posts }
    }
}

} // verus!
