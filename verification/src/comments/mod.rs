pub mod comment;

use vstd::prelude::*;
use crate::oid::ObjectId;
use self::comment::Comment;
use crate::posts::post::Post;

verus! {

/// Gives `comment` a newly generated identifier, ready to be appended to a
/// post's comments; returns the comment and that identifier.
pub fn comment_add(comment: Comment) -> (r: (Comment, ObjectId))
    ensures
        r.0.id == Some(r.1),
        r.0.author == comment.author,
        r.0.text == comment.text,
        r.0.reject == comment.reject,
{
    let mut comment = comment;
    let id = ObjectId::new();
    comment.id = Some(id);
    (comment, id)
}

/// A removal of a comment: it reaches the post `post` when that post holds a
/// comment with identifier `comment`, and removes the comments with that
/// identifier from it.
#[derive(Debug, Clone, Copy)]
pub struct CommentRemoval {
    pub post: ObjectId,
    pub comment: ObjectId,
}

/// Whether the removal `r` reaches the post `p`.
pub open spec fn removal_matches(p: Post, r: CommentRemoval) -> bool {
    p.id == Some(r.post) && exists|i: int|
        0 <= i < p.comments@.len() && (#[trigger] p.comments@[i]).id == Some(r.comment)
}

/// The comments that `p` keeps after the removal `r`.
pub open spec fn kept_comments(p: Post, r: CommentRemoval) -> Seq<Comment> {
    p.comments@.filter(|c: Comment| c.id != Some(r.comment))
}

/// The removal of the comment `comment_id` from the post `post_id`.
pub fn comment_delete(post_id: ObjectId, comment_id: ObjectId) -> (r: CommentRemoval)
    ensures
        r.post == post_id,
        r.comment == comment_id,
{
    CommentRemoval { post: post_id, comment: comment_id }
}

/// After a removal no kept comment carries the removed identifier, and every
/// other comment is kept.
pub proof fn lemma_removal_removes(p: Post, r: CommentRemoval)
    ensures
        forall|i: int|
            0 <= i < kept_comments(p, r).len() ==> (#[trigger] kept_comments(p, r)[i]).id != Some(
                r.comment,
            ),
        forall|i: int|
            0 <= i < p.comments@.len() && (#[trigger] p.comments@[i]).id != Some(r.comment)
                ==> kept_comments(p, r).contains(p.comments@[i]),
{
    let pred = |c: Comment| c.id != Some(r.comment);
    assert forall|i: int| 0 <= i < kept_comments(p, r).len() implies (#[trigger] kept_comments(
        p,
        r,
    )[i]).id != Some(r.comment) by {
        p.comments@.lemma_filter_pred(pred, i);
    }
    assert forall|i: int|
        0 <= i < p.comments@.len() && (#[trigger] p.comments@[i]).id != Some(
            r.comment,
        ) implies kept_comments(p, r).contains(p.comments@[i]) by {
        p.comments@.lemma_filter_contains(pred, i);
    }
}

} // verus!
