pub mod post;

use vstd::prelude::*;
use self::post::{Post, PostCreate};
use crate::oid::ObjectId;
use crate::text::{join, join_words, views, words};

verus! {

/// The current time in milliseconds since the Unix epoch, from
/// `chrono::Utc::now().timestamp_millis()`; chrono measures it as the time
/// elapsed since the epoch, so it is never negative (a clock set before 1970
/// makes chrono panic).
#[verifier::external_body]
pub(crate) fn now_millis() -> (r: i64)
    ensures
        r >= 0,
{
    chrono::Utc::now().timestamp_millis()
}

/// The post stored for `post` when created at `now` (milliseconds): no
/// identifier (the store assigns one), no comments, the date `now`.
pub open spec fn is_new_post(r: Post, post: PostCreate, now: i64) -> bool {
    &&& r.id is None
    &&& r.author == post.author
    &&& r.underlabel == post.underlabel
    &&& r.label == post.label
    &&& r.text == post.text
    &&& r.footer == post.footer
    &&& r.tags == post.tags
    &&& r.comments@.len() == 0
    &&& r.date == now as u64
}

/// The post stored for `post` when created at `now`.
pub fn new_post(post: PostCreate, now: i64) -> (r: Post)
    ensures
        is_new_post(r, post, now),
{
    Post {
        id: None,
        author: post.author,
        underlabel: post.underlabel,
        label: post.label,
        text: post.text,
        footer: post.footer,
        tags: post.tags,
        comments: Vec::new(),
        date: now as u64,
    }
}

/// The post to store for `post`, dated now.
pub fn post_create(post: PostCreate) -> (r: Post)
    ensures
        exists|now: i64| now >= 0 && #[trigger] is_new_post(r, post, now),
{
    let now = now_millis();
    new_post(post, now)
}

/// The window (results to skip, results to return) of the post listing for
/// `page`: posts are counted from the first, and page `n` covers the first
/// `10 * (n + 1)` of them (as many as a 64-bit limit can express).
pub open spec fn post_window(page: int) -> (int, int) {
    (0, if (page + 1) * 10 <= i64::MAX {
        (page + 1) * 10
    } else {
        i64::MAX as int
    })
}

/// The window (results to skip, results to return) of a search result for
/// `page`: ten results, pages 0 and 1 both being the first ten, page `n > 1`
/// starting after the first `10 * (n - 1)`.
pub open spec fn search_window(page: int) -> (int, int) {
    (if page <= 1 {
        0
    } else {
        (page - 1) * 10
    }, 10)
}

/// The window of the post listing for `page`.
pub fn post_page_window(page: usize) -> (r: (u64, i64))
    ensures
        (r.0 as int, r.1 as int) == post_window(page as int),
        r.0 == 0,
        (page + 1) * 10 <= i64::MAX ==> r.1 == (page + 1) * 10,
        (page + 1) * 10 > i64::MAX ==> r.1 == i64::MAX,
{
    if page as u64 >= (i64::MAX as u64) / 10 {
        (0, i64::MAX)
    } else {
        (0, ((page as u64 + 1) * 10) as i64)
    }
}

/// The window of a search result for `page`.
pub fn search_page_window(page: usize) -> (r: (u64, i64))
    requires
        page <= 1 || (page - 1) * 10 <= usize::MAX,
    ensures
        (r.0 as int, r.1 as int) == search_window(page as int),
        page <= 1 ==> r.0 == 0,
        page > 1 ==> r.0 == (page - 1) * 10,
        r.1 == 10,
{
    let skip: usize = if page <= 1 {
        0
    } else {
        (page - 1) * 10
    };
    (skip as u64, 10)
}

/// Every search page holds ten results; pages 0 and 1 are the first ten,
/// and page `p > 1` starts after the first `10 * (p - 1)`.
pub proof fn lemma_search_window_exact(page: int)
    ensures
        search_window(page).1 == 10,
        page <= 1 ==> search_window(page).0 == 0,
        page > 1 ==> search_window(page).0 == (page - 1) * 10,
{
}

/// Listing page `p` covers the first `10 * (p + 1)` posts whenever that
/// count fits a 64-bit limit.
pub proof fn lemma_post_window_exact(page: int)
    requires
        0 <= page,
        (page + 1) * 10 <= i64::MAX,
    ensures
        post_window(page) == (0int, (page + 1) * 10),
{
}

/// Consecutive search pages (from page 1 on) follow each other without gap
/// or overlap.
pub proof fn lemma_search_pages_adjacent(page: int)
    requires
        page >= 1,
    ensures
        search_window(page + 1).0 == search_window(page).0 + search_window(page).1,
{
}

/// Each listing page covers the previous one and ten more posts, up to what
/// the limit can express.
pub proof fn lemma_post_pages_grow(page: int)
    requires
        page >= 0,
        (page + 2) * 10 <= i64::MAX,
    ensures
        post_window(page + 1).0 == post_window(page).0,
        post_window(page + 1).1 == post_window(page).1 + 10,
{
}

/// The pattern of a vague search: the words of `search` joined by `|`, so
/// that any one of them matches.
pub fn vague_pattern(search: &str) -> (r: String)
    ensures
        r@ == join(words(search@), seq!['|']),
{
    join_words(search, '|')
}

/// What a vague search asks the store: posts whose label, underlabel, text
/// or footer match `pattern`, ignoring case.
#[derive(Debug, Clone)]
pub struct VagueSearch {
    pub pattern: String,
    pub fields: Vec<String>,
    pub case_insensitive: bool,
}

/// The fields a vague search looks in.
pub open spec fn vague_fields() -> Seq<Seq<char>> {
    seq!["label"@, "underlabel"@, "text"@, "footer"@]
}

/// The vague search for `search`: any of its words, in any of the four text
/// fields, ignoring case.
pub fn vague_search(search: &str) -> (r: VagueSearch)
    ensures
        r.pattern@ == join(words(search@), seq!['|']),
        views(r.fields@) == vague_fields(),
        r.case_insensitive,
{
    let fields = vec![
        String::from_str("label"),
        String::from_str("underlabel"),
        String::from_str("text"),
        String::from_str("footer"),
    ];
    assert(views(fields@) =~= vague_fields());
    VagueSearch { pattern: vague_pattern(search), fields, case_insensitive: true }
}

/// An edit of a post: it reaches the post with identifier `id` among whose
/// authors `author` is listed, and sets its label, underlabel, text, footer
/// and tags.
#[derive(Debug, Clone)]
pub struct PostEdit {
    pub id: Option<ObjectId>,
    pub author: String,
    pub label: String,
    pub underlabel: String,
    pub text: String,
    pub footer: String,
    pub tags: Vec<String>,
}

/// Whether `author` is one of the post's authors.
pub open spec fn lists_author(p: Post, author: Seq<char>) -> bool {
    exists|i: int| 0 <= i < p.author@.len() && (#[trigger] p.author@[i])@ == author
}

/// Whether the edit `e` reaches the post `p`: same identifier, and the
/// editing name is one of the post's authors.
pub open spec fn edit_matches(p: Post, e: PostEdit) -> bool {
    &&& e.id is Some
    &&& p.id == e.id
    &&& lists_author(p, e.author@)
}

/// The post `p` after the edit `e`: the five edited fields replaced, the rest
/// kept.
pub open spec fn edited(p: Post, e: PostEdit) -> Post {
    Post {
        id: p.id,
        author: p.author,
        date: p.date,
        underlabel: e.underlabel,
        label: e.label,
        text: e.text,
        footer: e.footer,
        tags: e.tags,
        comments: p.comments,
    }
}

/// The edit that `author` asks for with `post`.
pub fn post_edit(post: PostCreate, author: String) -> (r: PostEdit)
    ensures
        r.id == post.id,
        r.author == author,
        r.label == post.label,
        r.underlabel == post.underlabel,
        r.text == post.text,
        r.footer == post.footer,
        r.tags == post.tags,
{
    PostEdit {
        id: post.id,
        author,
        label: post.label,
        underlabel: post.underlabel,
        text: post.text,
        footer: post.footer,
        tags: post.tags,
    }
}

/// An edit keeps a post's identifier, authors, date and comments, so the
/// same editor can reach it again.
pub proof fn lemma_edit_keeps(p: Post, e: PostEdit)
    ensures
        edited(p, e).id == p.id,
        edited(p, e).author == p.author,
        edited(p, e).date == p.date,
        edited(p, e).comments == p.comments,
        edit_matches(p, e) ==> edit_matches(edited(p, e), e),
{
}

/// A deletion of a post: it reaches the post with identifier `id` among
/// whose authors `author` is listed.
#[derive(Debug, Clone)]
pub struct PostDelete {
    pub id: ObjectId,
    pub author: String,
}

/// Whether the deletion `d` reaches the post `p`.
pub open spec fn delete_matches(p: Post, d: PostDelete) -> bool {
    p.id == Some(d.id) && lists_author(p, d.author@)
}

/// The deletion that `author` asks for of the post `post_id`.
pub fn post_delete(post_id: ObjectId, author: String) -> (r: PostDelete)
    ensures
        r.id == post_id,
        r.author == author,
{
    PostDelete { id: post_id, author }
}

} // verus!
