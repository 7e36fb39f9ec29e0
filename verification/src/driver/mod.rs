pub mod comment;
pub mod post;
pub mod timeconvertor;
pub mod user;

use vstd::prelude::*;
use crate::oid::ObjectId;
use crate::posts::now_millis;
use self::post::Post;
use self::user::User;

verus! {

/// What the store holds under an account name.
#[derive(Debug, Clone)]
pub enum Existing {
    Found(User),
    Missing,
    Failed(String),
}

/// Decides the creation of `user` given what the store holds under its
/// name: the account to insert unchanged, or the reason for refusal.
pub fn user_create(user: User, existing: Existing) -> (r: Result<User, crate::users::CreateError>)
    ensures
        match existing {
            Existing::Found(_) => r matches Err(crate::users::CreateError::AlreadyExists(m))
                && m@ == crate::users::already_exists_message(),
            Existing::Missing => r == Ok::<User, crate::users::CreateError>(user),
            Existing::Failed(e) => r matches Err(crate::users::CreateError::Store(m)) && m == e,
        },
{
    match existing {
        Existing::Found(_) => Err(
            crate::users::CreateError::AlreadyExists(
                String::from_str("Пользователь уже существует в базе данных."),
            ),
        ),
        Existing::Missing => Ok(user),
        Existing::Failed(e) => Err(crate::users::CreateError::Store(e)),
    }
}

/// The post to store for `post`: it keeps its identifier if it has one and
/// otherwise gets a new one, and it is dated now (the clock's reading is
/// not stated).
pub fn post_create(post: Post) -> (r: Post)
    ensures
        r.id is Some,
        post.id is Some ==> r.id == post.id,
        r.author == post.author,
        r.underlabel == post.underlabel,
        r.label == post.label,
        r.text == post.text,
        r.footer == post.footer,
        r.tags == post.tags,
        r.comments == post.comments,
{
    let mut post = post;
    if post.id.is_none() {
        post.id = Some(ObjectId::new());
    }
    let now = now_millis();
    post.date = now as u64;
    post
}

} // verus!
