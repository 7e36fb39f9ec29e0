use vstd::prelude::*;
use crate::users::UserLookup;

verus! {

/// Credentials as the token endpoint receives them.
#[derive(Debug, Clone, PartialEq)]
pub struct Auth {
    pub name: String,
    pub password: String,
}

/// The verdict on credentials given the store's answer to a lookup of an
/// account with that name and password: any answer that is not a failure is
/// accepted, whether an account was found or not.
pub fn user_veryficate(lookup: UserLookup) -> (r: Result<(), String>)
    ensures
        match lookup {
            UserLookup::Failed(e) => r == Err::<(), String>(e),
            _ => r is Ok,
        },
{
    match lookup {
        UserLookup::Failed(e) => Err(e),
        _ => Ok(()),
    }
}

} // verus!
