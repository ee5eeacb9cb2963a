//! Keys of records, each a type of its own so that they cannot be mixed up.

use vstd::prelude::*;

verus! {

/// The key of a local user.
#[derive(Debug, Clone, Copy, PartialEq, Eq, Structural)]
pub struct LocalUserId(pub i32);

/// The key of a person.
#[derive(Debug, Clone, Copy, PartialEq, Eq, Structural)]
pub struct PersonId(pub i32);

/// The key of a post.
#[derive(Debug, Clone, Copy, PartialEq, Eq, Structural)]
pub struct PostId(pub i32);

/// The key of a comment.
#[derive(Debug, Clone, Copy, PartialEq, Eq, Structural)]
pub struct CommentId(pub i32);

/// The key of a community.
#[derive(Debug, Clone, Copy, PartialEq, Eq, Structural)]
pub struct CommunityId(pub i32);

/// The key of an instance.
#[derive(Debug, Clone, Copy, PartialEq, Eq, Structural)]
pub struct InstanceId(pub i32);

/// A URL as it is kept in storage: its text form.
#[derive(Debug, Clone)]
pub struct DbUrl(pub String);

} // verus!
