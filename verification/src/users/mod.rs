pub mod user;

use vstd::prelude::*;
use self::user::{Role, User};
use crate::autentifications::auth::Auth;
use crate::posts::lists_author;
use crate::posts::post::Post;

verus! {

/// The outcome of looking an account up by name in the store.
#[derive(Debug, Clone)]
pub enum UserLookup {
    Found(User),
    Missing,
    Failed(String),
}

/// Why an account was not created.
#[derive(Debug, Clone)]
pub enum CreateError {
    /// An account of that name exists already.
    AlreadyExists(String),
    /// The store could not be asked.
    Store(String),
}

/// The message given when an account name is taken.
pub open spec fn already_exists_message() -> Seq<char> {
    "Пользователь уже существует в базе данных."@
}

/// Decides the creation of `user`, given what the store holds under its
/// name: the account to insert (always with the default role), or why not.
pub fn user_create(user: User, existing: UserLookup) -> (r: Result<User, CreateError>)
    ensures
        match existing {
            UserLookup::Found(_) => r matches Err(CreateError::AlreadyExists(m))
                && m@ == already_exists_message(),
            UserLookup::Missing => r matches Ok(u) && u.name == user.name && u.password
                == user.password && u.email == user.email && u.role == Role::Default,
            UserLookup::Failed(e) => r matches Err(CreateError::Store(m)) && m == e,
        },
{
    let mut user = user;
    user.role = Role::Default;
    match existing {
        UserLookup::Found(_) => Err(
            CreateError::AlreadyExists(String::from_str("Пользователь уже существует в базе данных.")),
        ),
        UserLookup::Missing => Ok(user),
        UserLookup::Failed(e) => Err(CreateError::Store(e)),
    }
}

/// A change of an account: it reaches the account named `name` and sets its
/// password and e-mail address; the name (the login) and the role stay.
#[derive(Debug, Clone)]
pub struct UserChange {
    pub name: String,
    pub password: String,
    pub email: String,
}

/// Whether the change `c` reaches the account `u`.
pub open spec fn change_matches(u: User, c: UserChange) -> bool {
    u.name@ == c.name@
}

/// The account `u` after the change `c`.
pub open spec fn changed(u: User, c: UserChange) -> User {
    User { name: u.name, password: c.password, email: c.email, role: u.role }
}

/// The change that stores `user`'s password and e-mail address under its
/// name.
pub fn user_change(user: User) -> (r: UserChange)
    ensures
        r.name == user.name,
        r.password == user.password,
        r.email == user.email,
{
    UserChange { name: user.name, password: user.password, email: user.email }
}

/// A change keeps the login and the role of the account, so it reaches the
/// same account again.
pub proof fn lemma_change_keeps_login(u: User, c: UserChange)
    ensures
        changed(u, c).name == u.name,
        changed(u, c).role == u.role,
        change_matches(u, c) ==> change_matches(changed(u, c), c),
{
}

/// A deletion of an account: the account with this name and password, and
/// then every post that lists the name among its authors.
#[derive(Debug, Clone)]
pub struct UserDelete {
    pub name: String,
    pub password: String,
}

/// Whether the deletion `d` removes the account `u`.
pub open spec fn deletes_user(u: User, d: UserDelete) -> bool {
    u.name@ == d.name@ && u.password@ == d.password@
}

/// Whether the deletion `d` removes the post `p`.
pub open spec fn deletes_post(p: Post, d: UserDelete) -> bool {
    lists_author(p, d.name@)
}

/// The deletion asked for with the credentials `user`.
pub fn user_delete(user: Auth) -> (r: UserDelete)
    ensures
        r.name == user.name,
        r.password == user.password,
{
    UserDelete { name: user.name, password: user.password }
}

} // verus!
