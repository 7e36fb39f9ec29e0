use vstd::prelude::*;

verus! {

/// An account without a role.
#[derive(Debug, Clone)]
pub struct User {
    pub name: String,
    pub password: String,
    pub email: String,
}

impl User {
    pub fn new(name: String, password: String, email: String) -> (r: Self)
        ensures
            r.name == name,
            r.password == password,
            r.email == email,
    {
        Self { name, password, email }
    }
}

} // verus!
