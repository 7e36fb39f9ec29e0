use vstd::prelude::*;
use crate::users::user::User;
use crate::users::UserLookup;

verus! {

/// A name and password as a client sends them.
#[derive(Debug, Clone, PartialEq, Eq)]
pub struct Auth {
    pub name: String,
    pub password: String,
}

/// Whether a lookup of `auth.name` confirms `auth`: an account was found and
/// its password equals the one given.
pub open spec fn lookup_confirms(lookup: UserLookup, password: Seq<char>) -> bool {
    match lookup {
        UserLookup::Found(u) => u.password@ == password,
        _ => false,
    }
}

impl Auth {
    pub fn new(name: String, password: String) -> (r: Self)
        ensures
            r.name == name,
            r.password == password,
    {
        Self { name, password }
    }

    /// Checks these credentials against the account stored under
    /// `self.name` (`lookup` is the store's answer for that name).
    pub fn validate(&self, lookup: &UserLookup) -> (b: bool)
        ensures
            b == lookup_confirms(*lookup, self.password@),
    {
        match lookup {
            UserLookup::Found(user) => user.password == self.password,
            UserLookup::Missing => false,
            UserLookup::Failed(_) => false,
        }
    }
}

impl User {
    /// Whether `another` carries this account's password.
    pub fn validate(&self, another: &User) -> (b: bool)
        ensures
            b == (self.password@ == another.password@),
    {
        self.password == another.password
    }

    /// Whether `another` carries this account's password.
    pub fn validate_anonimus(&self, another: &Auth) -> (b: bool)
        ensures
            b == (self.password@ == another.password@),
    {
        self.password == another.password
    }
}

} // verus!
