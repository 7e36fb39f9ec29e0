use vstd::prelude::*;
use crate::users::UserLookup;
use super::auth::lookup_confirms;

verus! {

/// A name and password whose fields stay private to this module.
#[derive(Debug, PartialEq, Eq)]
pub struct Auth {
    name: String,
    password: String,
}

impl Auth {
    /// The name held.
    pub closed spec fn name_view(&self) -> Seq<char> {
        self.name@
    }

    /// The password held.
    pub closed spec fn password_view(&self) -> Seq<char> {
        self.password@
    }

    pub fn new(name: String, password: String) -> (r: Self)
        ensures
            r.name_view() == name@,
            r.password_view() == password@,
    {
        Self { name, password }
    }

    /// Checks these credentials against the account stored under the name
    /// held (`lookup` is the store's answer for that name).
    pub fn validate(&self, lookup: &UserLookup) -> (b: bool)
        ensures
            b == lookup_confirms(*lookup, self.password_view()),
    {
        match lookup {
            UserLookup::Found(user) => user.password == self.password,
            UserLookup::Missing => false,
            UserLookup::Failed(_) => false,
        }
    }
}

} // verus!
