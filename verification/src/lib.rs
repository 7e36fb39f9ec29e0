//! Verified core of a small blogging back end: users, authentication,
//! posts, comments, one-time codes and the decisions of the HTTP routes.
//! Everything that talks to MongoDB, Redis, SMTP or HTTP lives in the
//! application crate; this library decides what those calls are and what
//! their outcomes mean.

pub mod autentifications;
pub mod bandwich;
pub mod cli;
pub mod comments;
pub mod driver;
pub mod mongolinks;
pub mod out;
pub mod oid;
pub mod posts;
pub mod routes;
pub mod sendcode;
pub mod text;
pub mod users;

use vstd::prelude::*;
use crate::users::user::Role;
use crate::users::UserLookup;

verus! {

/// A request to give the account `name` the role `role`.
#[derive(Debug, Clone)]
pub struct RoleChange {
    pub name: String,
    pub role: Role,
}

/// Whether `access_key` is the key that allows changing roles.
pub fn pid_key_matches(access_key: &str) -> (b: bool)
    ensures
        b == (access_key@ == "123test123"@),
{
    String::from_str(access_key) == String::from_str("123test123")
}

/// The role change of the account `name` to `role`; only callable with the
/// key that allows it.
pub fn change_pid(name: String, role: Role, access_key: String) -> (r: RoleChange)
    requires
        access_key@ == "123test123"@,
    ensures
        r.name == name,
        r.role == role,
{
    RoleChange { name, role }
}

/// The change making `name` a paying account.
pub fn be_paid(name: String) -> (r: RoleChange)
    ensures
        r.name == name,
        r.role == Role::Paid,
{
    RoleChange { name, role: Role::Paid }
}

/// The change making `name` an ordinary account again.
pub fn un_paid(name: String) -> (r: RoleChange)
    ensures
        r.name == name,
        r.role == Role::Default,
{
    RoleChange { name, role: Role::Default }
}

/// The answer to "is `name` an administrator", given the store's answer to
/// a lookup of an administrator of that name: every answer that is not a
/// failure counts as yes, whether an account was found or not.
pub fn is_admin(lookup: &UserLookup) -> (b: bool)
    ensures
        b == !(lookup is Failed),
{
    match lookup {
        UserLookup::Failed(_) => false,
        _ => true,
    }
}

/// The roles of the stored accounts, by name, after setting the role of the
/// account `name` to `role` (a name that is not stored changes nothing).
pub open spec fn roles_after(roles: Map<Seq<char>, Role>, name: Seq<char>, role: Role) -> Map<
    Seq<char>,
    Role,
> {
    if roles.dom().contains(name) {
        roles.insert(name, role)
    } else {
        roles
    }
}

/// Making an ordinary account paid (`be_paid`) and then unpaid again
/// (`un_paid`) restores every account's role.
pub proof fn lemma_paid_then_unpaid(roles: Map<Seq<char>, Role>, name: Seq<char>)
    requires
        roles.dom().contains(name) ==> roles[name] == Role::Default,
    ensures
        roles_after(roles_after(roles, name, Role::Paid), name, Role::Default) == roles,
{
    assert(roles_after(roles_after(roles, name, Role::Paid), name, Role::Default) =~= roles);
}

} // verus!
