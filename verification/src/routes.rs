//! The decisions of the HTTP routes. Each route reads a request, asks the
//! store (or the mailer) and answers; the functions here take the request
//! and each outcome in turn and say what to do next or what to answer.
use vstd::prelude::*;
use crate::autentifications::auth::{Auth, lookup_confirms};
use crate::comments::comment::Comment;
use crate::oid::{ObjectId, hex_id};
use crate::posts::post::{Post, PostCreate};
use crate::sendcode::email::CodeError;
use crate::users::user::{User, UserMin};
use crate::users::UserLookup;

verus! {

/// The content of an answer: plain text, or a value sent as JSON.
#[derive(Debug, Clone)]
pub enum Body {
    Text(String),
    UserMin(UserMin),
    User(User),
    Posts(Vec<Post>),
    Post(Post),
    Inserted(ObjectId),
    Id(ObjectId),
}

/// An answer to a request: an HTTP status code and a body.
#[derive(Debug, Clone)]
pub struct Reply {
    pub status: u16,
    pub body: Body,
}

/// Either the final answer, or the next step to take with its data.
#[derive(Debug, Clone)]
pub enum Next<T> {
    Done(Reply),
    Then(T),
}

/// Credentials and the post to create or edit.
#[derive(Debug, Clone)]
pub struct RequsetPost {
    pub post: PostCreate,
    pub auth: Auth,
}

/// Credentials and a new password.
#[derive(Debug, Clone)]
pub struct UserChangerAuth {
    pub auth: Auth,
    pub newpassword: String,
}

/// An account (with its current password) and a new password.
#[derive(Debug, Clone)]
pub struct UserChanger {
    pub user: User,
    pub newpassword: String,
}

/// A comment to add, with the credentials of its author.
#[derive(Debug, Clone)]
pub struct CommentAdd {
    pub comment: Comment,
    pub auth: Auth,
}

/// The comment to delete (its identifier in hexadecimal) and credentials.
#[derive(Debug, Clone)]
pub struct CommentDelete {
    pub comment_id: String,
    pub auth: Auth,
}

/// `r` answers with `status` and the text `msg`.
pub open spec fn says(r: Reply, status: u16, msg: Seq<char>) -> bool {
    r.status == status && (r.body matches Body::Text(t) && t@ == msg)
}

/// `n` is the final answer with `status` and the text `msg`.
pub open spec fn done_says<T>(n: Next<T>, status: u16, msg: Seq<char>) -> bool {
    n matches Next::Done(r) && says(r, status, msg)
}

fn reply(status: u16, msg: &str) -> (r: Reply)
    ensures
        says(r, status, msg@),
{
    Reply { status, body: Body::Text(String::from_str(msg)) }
}

fn reply_with(status: u16, msg: String) -> (r: Reply)
    ensures
        says(r, status, msg@),
{
    Reply { status, body: Body::Text(msg) }
}

/// `str::to_lowercase`, named by `lowercase`.
pub uninterp spec fn lowercase(s: Seq<char>) -> Seq<char>;

/// `str::to_lowercase` from the standard library (Unicode lower case).
#[verifier::external_body]
fn to_lowercase(s: &str) -> (r: String)
    ensures
        r@ == lowercase(s@),
{
    s.to_lowercase()
}

/// The answer to creating an account, given the outcome of the creation.
pub fn create_user(outcome: Result<(), String>) -> (r: Reply)
    ensures
        outcome is Ok ==> says(r, 201, "User created"@),
        outcome matches Err(e) ==> says(r, 400, e@),
{
    match outcome {
        Ok(_) => reply(201, "User created"),
        Err(e) => reply_with(400, e),
    }
}

/// The public information on an account: only its name and role.
pub fn user(lookup: UserLookup) -> (r: Reply)
    ensures
        lookup matches UserLookup::Found(u) ==> (r.status == 200 && (r.body matches Body::UserMin(m)
            && m.name == u.name && m.role == u.role)),
        lookup is Missing ==> says(r, 404, "User not found"@),
        lookup matches UserLookup::Failed(e) ==> says(r, 400, e@),
{
    match lookup {
        UserLookup::Found(u) => Reply {
            status: 200,
            body: Body::UserMin(UserMin { name: u.name, role: u.role }),
        },
        UserLookup::Missing => reply(404, "User not found"),
        UserLookup::Failed(e) => reply_with(400, e),
    }
}

/// The whole account, disclosed only to whoever gives its password.
pub fn get_user_settings(lookup: UserLookup, auth: &Auth) -> (r: Reply)
    ensures
        lookup matches UserLookup::Found(u) ==> (if u.password@ == auth.password@ {
            r.status == 200 && (r.body matches Body::User(v) && v == u)
        } else {
            says(r, 403, "Wrong password"@)
        }),
        lookup is Missing ==> says(r, 204, ""@),
        lookup matches UserLookup::Failed(e) ==> says(r, 400, e@),
{
    match lookup {
        UserLookup::Found(u) => {
            if u.validate_anonimus(auth) {
                Reply { status: 200, body: Body::User(u) }
            } else {
                reply(403, "Wrong password")
            }
        },
        UserLookup::Missing => reply(204, ""),
        UserLookup::Failed(e) => reply_with(400, e),
    }
}

/// The check of a password change made before the account is looked up:
/// both passwords must be non-empty.
pub fn pass_changer_check(req: &UserChangerAuth) -> (r: Next<()>)
    ensures
        req.auth.password@.len() == 0 ==> done_says(r, 400, "Password is empty"@),
        req.auth.password@.len() > 0 && req.newpassword@.len() == 0 ==> done_says(
            r,
            400,
            "New Password is empty"@,
        ),
        req.auth.password@.len() > 0 && req.newpassword@.len() > 0 ==> r is Then,
{
    if req.auth.password.unicode_len() == 0 {
        return Next::Done(reply(400, "Password is empty"));
    }
    if req.newpassword.unicode_len() == 0 {
        return Next::Done(reply(400, "New Password is empty"));
    }
    Next::Then(())
}

/// Whether both passwords of a password change are non-empty.
pub open spec fn pass_change_filled(req: UserChangerAuth) -> bool {
    req.auth.password@.len() > 0 && req.newpassword@.len() > 0
}

/// A password change, given the account looked up by the route's name:
/// empty passwords are refused first; then, when the given password matches
/// the looked-up account, the credentials to store are that account's name
/// with the new password.
pub fn pass_changer(req: UserChangerAuth, lookup: UserLookup) -> (r: Next<Auth>)
    ensures
        req.auth.password@.len() == 0 ==> done_says(r, 400, "Password is empty"@),
        req.auth.password@.len() > 0 && req.newpassword@.len() == 0 ==> done_says(
            r,
            400,
            "New Password is empty"@,
        ),
        pass_change_filled(req) ==> (lookup matches UserLookup::Found(u) ==> (if u.password@
            == req.auth.password@ {
            r matches Next::Then(a) && a.name == u.name && a.password == req.newpassword
        } else {
            done_says(r, 403, "Wrong password"@)
        })),
        pass_change_filled(req) && lookup is Missing ==> done_says(
            r,
            404,
            "Nothing of your user found"@,
        ),
        pass_change_filled(req) && lookup is Failed ==> done_says(
            r,
            400,
            "This structure is't user"@,
        ),
{
    if let Next::Done(r) = pass_changer_check(&req) {
        return Next::Done(r);
    }
    match lookup {
        UserLookup::Found(i) => {
            if i.validate_anonimus(&req.auth) {
                Next::Then(Auth { name: i.name, password: req.newpassword })
            } else {
                Next::Done(reply(403, "Wrong password"))
            }
        },
        UserLookup::Missing => Next::Done(reply(404, "Nothing of your user found")),
        UserLookup::Failed(_) => Next::Done(reply(400, "This structure is't user")),
    }
}

/// Last step of a password change, given the outcome of storing it.
pub fn pass_changed(outcome: Result<(), String>) -> (r: Reply)
    ensures
        outcome is Ok ==> says(r, 200, "Password changed"@),
        outcome matches Err(e) ==> says(r, 400, e@),
{
    match outcome {
        Ok(_) => reply(200, "Password changed"),
        Err(e) => reply_with(400, e),
    }
}

/// The check of an account change made before the account is looked up:
/// both passwords must be non-empty.
pub fn user_changer_check(req: &UserChanger) -> (r: Next<()>)
    ensures
        req.user.password@.len() == 0 ==> done_says(r, 400, "Password is empty"@),
        req.user.password@.len() > 0 && req.newpassword@.len() == 0 ==> done_says(
            r,
            400,
            "New Password is empty"@,
        ),
        req.user.password@.len() > 0 && req.newpassword@.len() > 0 ==> r is Then,
{
    if req.user.password.unicode_len() == 0 {
        return Next::Done(reply(400, "Password is empty"));
    }
    if req.newpassword.unicode_len() == 0 {
        return Next::Done(reply(400, "New Password is empty"));
    }
    Next::Then(())
}

/// Whether both passwords of an account change are non-empty.
pub open spec fn user_change_filled(req: UserChanger) -> bool {
    req.user.password@.len() > 0 && req.newpassword@.len() > 0
}

/// An account change, given the account looked up by the route's name:
/// empty passwords are refused first; then, when the given password matches
/// the looked-up account, the account to store is that account (same name
/// and role) with the new password and the requested e-mail address.
pub fn user_changer(req: UserChanger, lookup: UserLookup) -> (r: Next<User>)
    ensures
        req.user.password@.len() == 0 ==> done_says(r, 400, "Password is empty"@),
        req.user.password@.len() > 0 && req.newpassword@.len() == 0 ==> done_says(
            r,
            400,
            "New Password is empty"@,
        ),
        user_change_filled(req) ==> (lookup matches UserLookup::Found(s) ==> (if s.password@
            == req.user.password@ {
            r matches Next::Then(u) && u.name == s.name && u.role == s.role && u.email
                == req.user.email && u.password == req.newpassword
        } else {
            done_says(r, 403, "Wrong password"@)
        })),
        user_change_filled(req) && lookup is Missing ==> done_says(
            r,
            404,
            "Nothing of your user found"@,
        ),
        user_change_filled(req) && lookup is Failed ==> done_says(
            r,
            400,
            "This structure is't user"@,
        ),
{
    if let Next::Done(r) = user_changer_check(&req) {
        return Next::Done(r);
    }
    match lookup {
        UserLookup::Found(i) => {
            if i.validate(&req.user) {
                Next::Then(
                    User { name: i.name, password: req.newpassword, email: req.user.email, role: i.role },
                )
            } else {
                Next::Done(reply(403, "Wrong password"))
            }
        },
        UserLookup::Missing => Next::Done(reply(404, "Nothing of your user found")),
        UserLookup::Failed(_) => Next::Done(reply(400, "This structure is't user")),
    }
}

/// Last step of an account change, given the outcome of storing it.
pub fn user_changed(outcome: Result<(), String>) -> (r: Reply)
    ensures
        outcome is Ok ==> says(r, 200, "User changed"@),
        outcome matches Err(e) ==> says(r, 400, e@),
{
    match outcome {
        Ok(_) => reply(200, "User changed"),
        Err(e) => reply_with(400, e),
    }
}

/// The answer to a listing or search of posts, given its outcome.
pub fn posts_reply(result: Result<Vec<Post>, String>) -> (r: Reply)
    ensures
        result matches Ok(v) ==> (r.status == 200 && (r.body matches Body::Posts(w) && w == v)),
        result matches Err(e) ==> says(r, 500, e@),
{
    match result {
        Ok(v) => Reply { status: 200, body: Body::Posts(v) },
        Err(e) => reply_with(500, e),
    }
}

/// Credentials checked before acting for a user: refused ones end the
/// request with status 403 and the text `denial`.
fn require_valid(valid: bool, denial: &str) -> (r: Next<()>)
    ensures
        valid ==> r is Then,
        !valid ==> done_says(r, 403, denial@),
{
    if valid {
        Next::Then(())
    } else {
        Next::Done(reply(403, denial))
    }
}

/// The answer to a finished action: `ok` on success, the error otherwise.
fn acted(outcome: Result<(), String>, ok: &str) -> (r: Reply)
    ensures
        outcome is Ok ==> says(r, 200, ok@),
        outcome matches Err(e) ==> says(r, 500, e@),
{
    match outcome {
        Ok(_) => reply(200, ok),
        Err(e) => reply_with(500, e),
    }
}

/// First step of deleting an account: the credentials must be valid.
pub fn delete_user(valid: bool) -> (r: Next<()>)
    ensures
        valid ==> r is Then,
        !valid ==> done_says(r, 403, "Wrong user data for auth"@),
{
    require_valid(valid, "Wrong user data for auth")
}

/// Last step of deleting an account, given the outcome.
pub fn user_deleted(outcome: Result<(), String>) -> (r: Reply)
    ensures
        outcome is Ok ==> says(r, 200, "User deleted"@),
        outcome matches Err(e) ==> says(r, 500, e@),
{
    acted(outcome, "User deleted")
}

/// First step of showing a post: its identifier must be 24 hex digits.
pub fn post(post_id: &str) -> (r: Next<ObjectId>)
    ensures
        hex_id(post_id@) matches Some(b) ==> (r matches Next::Then(o) && o.bytes@ == b),
        hex_id(post_id@) is None ==> done_says(r, 400, "Invalid ObjectId"@),
{
    match ObjectId::parse_str(post_id) {
        Some(oid) => Next::Then(oid),
        None => Next::Done(reply(400, "Invalid ObjectId")),
    }
}

/// Last step of showing a post, given what the store found.
pub fn post_found(result: Result<Option<Post>, String>) -> (r: Reply)
    ensures
        result matches Ok(Some(p)) ==> (r.status == 200 && (r.body matches Body::Post(q) && q == p)),
        result matches Ok(None) ==> says(r, 404, "Post not found"@),
        result matches Err(e) ==> says(r, 500, e@),
{
    match result {
        Ok(None) => reply(404, "Post not found"),
        Ok(Some(v)) => Reply { status: 200, body: Body::Post(v) },
        Err(e) => reply_with(500, e),
    }
}

/// First step of editing a post: the credentials must be valid.
pub fn post_editor(valid: bool) -> (r: Next<()>)
    ensures
        valid ==> r is Then,
        !valid ==> done_says(r, 403, "Wrong user data for auth"@),
{
    require_valid(valid, "Wrong user data for auth")
}

/// Last step of editing a post, given the outcome.
pub fn post_edited(outcome: Result<(), String>) -> (r: Reply)
    ensures
        outcome is Ok ==> says(r, 200, "Post edited"@),
        outcome matches Err(e) ==> says(r, 500, e@),
{
    acted(outcome, "Post edited")
}

/// First step of creating a post: the credentials must be valid.
pub fn create(valid: bool) -> (r: Next<()>)
    ensures
        valid ==> r is Then,
        !valid ==> done_says(r, 403, "Wrong user data for auth"@),
{
    require_valid(valid, "Wrong user data for auth")
}

/// Last step of creating a post, given the identifier the store assigned.
pub fn created(result: Result<ObjectId, String>) -> (r: Reply)
    ensures
        result matches Ok(id) ==> (r.status == 200 && r.body == Body::Inserted(id)),
        result matches Err(e) ==> says(r, 500, e@),
{
    match result {
        Ok(id) => Reply { status: 200, body: Body::Inserted(id) },
        Err(e) => reply_with(500, e),
    }
}

/// First step of deleting a post: valid credentials, then an identifier of
/// 24 hex digits.
pub fn post_deleter(post_id: &str, valid: bool) -> (r: Next<ObjectId>)
    ensures
        !valid ==> done_says(r, 403, "Wrong user data for auth"@),
        valid && hex_id(post_id@) is None ==> done_says(r, 400, "Invalid ObjectId"@),
        valid ==> (hex_id(post_id@) matches Some(b) ==> (r matches Next::Then(o) && o.bytes@ == b)),
{
    if !valid {
        return Next::Done(reply(403, "Wrong user data for auth"));
    }
    post(post_id)
}

/// Last step of deleting a post, given the outcome.
pub fn post_deleted(outcome: Result<(), String>) -> (r: Reply)
    ensures
        outcome is Ok ==> says(r, 200, "Post deleted"@),
        outcome matches Err(e) ==> says(r, 500, e@),
{
    acted(outcome, "Post deleted")
}

/// First step of sending a password code for the account `name`, given the
/// account looked up: the address to mail and the key (the lower-cased name)
/// under which the code is kept.
pub fn code_send(name: &str, lookup: UserLookup) -> (r: Next<(String, String)>)
    ensures
        lookup matches UserLookup::Found(u) ==> (r matches Next::Then(t) && t.0 == u.email && t.1@
            == lowercase(name@)),
        lookup is Missing ==> done_says(r, 404, "User not found"@),
        lookup matches UserLookup::Failed(e) ==> done_says(r, 500, e@),
{
    match lookup {
        UserLookup::Found(i) => Next::Then((i.email, to_lowercase(name))),
        UserLookup::Missing => Next::Done(reply(404, "User not found")),
        UserLookup::Failed(e) => Next::Done(reply_with(500, e)),
    }
}

/// Last step of sending a password code, given the outcome.
pub fn code_sent(outcome: Result<(), String>) -> (r: Reply)
    ensures
        outcome is Ok ==> says(r, 200, "Code send"@),
        outcome matches Err(e) ==> says(r, 500, e@),
{
    acted(outcome, "Code send")
}

/// The check of a password change with a code made before the account is
/// looked up: the new password must be non-empty.
pub fn code_get_check(auth: &Auth) -> (r: Next<()>)
    ensures
        auth.password@.len() == 0 ==> done_says(r, 400, "Password is empty"@),
        auth.password@.len() > 0 ==> r is Then,
{
    if auth.password.unicode_len() == 0 {
        Next::Done(reply(400, "Password is empty"))
    } else {
        Next::Then(())
    }
}

/// Changing a password with a code, given the account looked up by
/// `auth.name`: an empty new password is refused first; then the key (the
/// lower-cased name) of the code to check.
pub fn code_get(auth: &Auth, lookup: UserLookup) -> (r: Next<String>)
    ensures
        auth.password@.len() == 0 ==> done_says(r, 400, "Password is empty"@),
        auth.password@.len() > 0 && lookup is Found ==> (r matches Next::Then(k) && k@ == lowercase(
            auth.name@,
        )),
        auth.password@.len() > 0 && lookup is Missing ==> done_says(r, 204, "User not found"@),
        auth.password@.len() > 0 ==> (lookup matches UserLookup::Failed(e) ==> done_says(r, 500, e@)),
{
    if let Next::Done(r) = code_get_check(auth) {
        return Next::Done(r);
    }
    match lookup {
        UserLookup::Found(_) => Next::Then(to_lowercase(auth.name.as_str())),
        UserLookup::Missing => Next::Done(reply(204, "User not found")),
        UserLookup::Failed(e) => Next::Done(reply_with(500, e)),
    }
}

/// Third step of changing a password with a code, given the verdict on the
/// code: a refused code ends the request.
pub fn code_checked(result: Result<(), CodeError>) -> (r: Next<()>)
    ensures
        result is Ok ==> r is Then,
        result matches Err(e) ==> done_says(r, 404, e.text()),
{
    match result {
        Ok(_) => Next::Then(()),
        Err(e) => Next::Done(reply_with(404, e.message())),
    }
}

/// Last step of changing a password with a code, given the outcome.
pub fn code_pass_changed(outcome: Result<(), String>) -> (r: Reply)
    ensures
        outcome is Ok ==> says(r, 200, "password changed"@),
        outcome matches Err(e) ==> says(r, 404, e@),
{
    match outcome {
        Ok(_) => reply(200, "password changed"),
        Err(e) => reply_with(404, e),
    }
}

/// First step of adding a comment: the credentials must be valid and name
/// the comment's author, and the post's identifier must be 24 hex digits.
pub fn add_comment(req: &CommentAdd, valid: bool, post_id: &str) -> (r: Next<ObjectId>)
    ensures
        !(valid && req.auth.name@ == req.comment.author@) ==> done_says(
            r,
            403,
            "Auth fail"@,
        ),
        valid && req.auth.name@ == req.comment.author@ && hex_id(post_id@) is None ==> done_says(
            r,
            400,
            "Invalid ObjectId"@,
        ),
        valid && req.auth.name@ == req.comment.author@ ==> (hex_id(post_id@) matches Some(b) ==> (
        r matches Next::Then(o) && o.bytes@ == b)),
{
    if valid && req.auth.name == req.comment.author {
        post(post_id)
    } else {
        Next::Done(reply(403, "Auth fail"))
    }
}

/// Last step of adding a comment, given the identifier it was stored under.
pub fn comment_added(result: Result<ObjectId, String>) -> (r: Reply)
    ensures
        result matches Ok(id) ==> (r.status == 200 && r.body == Body::Id(id)),
        result matches Err(e) ==> says(r, 500, e@),
{
    match result {
        Ok(id) => Reply { status: 200, body: Body::Id(id) },
        Err(e) => reply_with(500, e),
    }
}

/// First step of deleting a comment: both identifiers must be 24 hex digits.
pub fn delete_comment(post_id: &str, req: &CommentDelete) -> (r: Next<(ObjectId, ObjectId)>)
    ensures
        hex_id(post_id@) is None || hex_id(req.comment_id@) is None ==> done_says(
            r,
            400,
            "Invalid post ID"@,
        ),
        hex_id(post_id@) matches Some(p) ==> (hex_id(req.comment_id@) matches Some(c) ==> (
        r matches Next::Then(t) && t.0.bytes@ == p && t.1.bytes@ == c)),
{
    let post_oid = match ObjectId::parse_str(post_id) {
        Some(oid) => oid,
        None => return Next::Done(reply(400, "Invalid post ID")),
    };
    let comment_oid = match ObjectId::parse_str(req.comment_id.as_str()) {
        Some(oid) => oid,
        None => return Next::Done(reply(400, "Invalid post ID")),
    };
    Next::Then((post_oid, comment_oid))
}

/// Second step of deleting a comment: the credentials must be valid.
pub fn delete_comment_auth(valid: bool) -> (r: Next<()>)
    ensures
        valid ==> r is Then,
        !valid ==> done_says(r, 403, "Wront data for auth"@),
{
    require_valid(valid, "Wront data for auth")
}

/// Last step of deleting a comment, given the outcome.
pub fn comment_deleted(outcome: Result<(), String>) -> (r: Reply)
    ensures
        outcome is Ok ==> says(r, 200, "comment deleted"@),
        outcome matches Err(e) ==> says(r, 500, e@),
{
    acted(outcome, "comment deleted")
}

} // verus!
