//! Serving a local comment to other instances.

use vstd::prelude::*;
use crate::newtypes::CommentId;
use crate::text::{parse_i32, parsed_i32};

verus! {

/// The path parameter of a request for a comment.
#[derive(Debug, Clone)]
pub struct CommentQuery {
    pub comment_id: String,
}

/// A comment as far as serving it depends on it.
#[derive(Debug, Clone)]
pub struct ApubComment {
    pub id: CommentId,
    pub ap_id: String,
    pub local: bool,
    pub deleted: bool,
    pub removed: bool,
}

/// What is served for a comment.
#[derive(Debug, Clone)]
pub enum CommentResponse {
    /// The comment itself.
    Object(CommentId),
    /// A tombstone under the comment's id: the comment is gone.
    Tombstone(String),
    /// Nothing: the comment is not one of this instance.
    NotFound,
}

/// The id that a request asks for, if its parameter is a number.
pub fn requested_comment(info: &CommentQuery) -> (r: Option<CommentId>)
    ensures
        r == (match parsed_i32(info.comment_id@) {
            Some(n) => Some(CommentId(n)),
            None => None,
        }),
{
    match parse_i32(info.comment_id.as_str()) {
        Some(n) => Some(CommentId(n)),
        None => None,
    }
}

/// Decides what is served for a stored comment: nothing for a comment
/// of another instance, a tombstone for one that is deleted or removed,
/// the comment otherwise.
pub fn get_apub_comment(comment: ApubComment) -> (r: CommentResponse)
    ensures
        r == (if !comment.local {
            CommentResponse::NotFound
        } else if !comment.deleted && !comment.removed {
            CommentResponse::Object(comment.id)
        } else {
            CommentResponse::Tombstone(comment.ap_id)
        }),
{
    if !comment.local {
        return CommentResponse::NotFound;
    }
    if !comment.deleted && !comment.removed {
        CommentResponse::Object(comment.id)
    } else {
        CommentResponse::Tombstone(comment.ap_id)
    }
}

} // verus!
