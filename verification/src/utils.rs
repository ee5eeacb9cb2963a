//! Checks that the API runs before it serves a request.

use vstd::prelude::*;
use vstd::utf8::encode_utf8;
use crate::claims::Claims;
use crate::newtypes::{CommentId, LocalUserId, PersonId, PostId};

verus! {

/// Why the API turns a request down.
#[derive(Debug, Clone, Copy, PartialEq, Eq, Structural)]
pub enum ApiError {
    NotLoggedIn,
    NotAModOrAdmin,
    NotAnAdmin,
    CouldntFindPost,
    CouldntMarkPostAsRead,
    SiteBan,
    Deleted,
    CommunityBan,
    CouldntFindCommunity,
    PersonBlock,
    DownvotesDisabled,
    InvalidPassword,
    SiteDescriptionLengthOverflow,
    HoneypotFail,
    CouldntUpdateComment,
    CouldntUpdatePrivateMessage,
    /// A failure that has no name of its own.
    Unknown,
}

impl ApiError {
    /// The name under which the error is reported to clients.
    pub open spec fn message_of(self) -> Seq<char> {
        match self {
            ApiError::NotLoggedIn => "not_logged_in"@,
            ApiError::NotAModOrAdmin => "not_a_mod_or_admin"@,
            ApiError::NotAnAdmin => "not_an_admin"@,
            ApiError::CouldntFindPost => "couldnt_find_post"@,
            ApiError::CouldntMarkPostAsRead => "couldnt_mark_post_as_read"@,
            ApiError::SiteBan => "site_ban"@,
            ApiError::Deleted => "deleted"@,
            ApiError::CommunityBan => "community_ban"@,
            ApiError::CouldntFindCommunity => "couldnt_find_community"@,
            ApiError::PersonBlock => "person_block"@,
            ApiError::DownvotesDisabled => "downvotes_disabled"@,
            ApiError::InvalidPassword => "invalid_password"@,
            ApiError::SiteDescriptionLengthOverflow => "site_description_length_overflow"@,
            ApiError::HoneypotFail => "honeypot_fail"@,
            ApiError::CouldntUpdateComment => "couldnt_update_comment"@,
            ApiError::CouldntUpdatePrivateMessage => "couldnt_update_private_message"@,
            ApiError::Unknown => "unknown"@,
        }
    }

    /// The name under which the error is reported to clients.
    pub fn message(&self) -> (r: &'static str)
        ensures
            r@ == self.message_of(),
    {
        match self {
            ApiError::NotLoggedIn => "not_logged_in",
            ApiError::NotAModOrAdmin => "not_a_mod_or_admin",
            ApiError::NotAnAdmin => "not_an_admin",
            ApiError::CouldntFindPost => "couldnt_find_post",
            ApiError::CouldntMarkPostAsRead => "couldnt_mark_post_as_read",
            ApiError::SiteBan => "site_ban",
            ApiError::Deleted => "deleted",
            ApiError::CommunityBan => "community_ban",
            ApiError::CouldntFindCommunity => "couldnt_find_community",
            ApiError::PersonBlock => "person_block",
            ApiError::DownvotesDisabled => "downvotes_disabled",
            ApiError::InvalidPassword => "invalid_password",
            ApiError::SiteDescriptionLengthOverflow => "site_description_length_overflow",
            ApiError::HoneypotFail => "honeypot_fail",
            ApiError::CouldntUpdateComment => "couldnt_update_comment",
            ApiError::CouldntUpdatePrivateMessage => "couldnt_update_private_message",
            ApiError::Unknown => "unknown",
        }
    }
}

/// A person, as far as the checks read it.
#[derive(Debug, Clone)]
pub struct Person {
    pub id: PersonId,
    pub name: String,
    pub admin: bool,
    pub banned: bool,
    pub deleted: bool,
}

/// A local account, as far as the checks read it.
#[derive(Debug, Clone)]
pub struct LocalUser {
    pub id: LocalUserId,
    pub email: Option<String>,
    pub send_notifications_to_email: bool,
    /// Tokens issued before this time are void. Seconds since the epoch.
    pub validator_time: i64,
}

/// A local account with its person.
#[derive(Debug, Clone)]
pub struct LocalUserView {
    pub local_user: LocalUser,
    pub person: Person,
}

/// A local account with its person, as the settings page reads it.
#[derive(Debug, Clone)]
pub struct LocalUserSettingsView {
    pub local_user: LocalUser,
    pub person: Person,
}

/// A post, as far as the checks read it.
#[derive(Debug, Clone, Copy)]
pub struct Post {
    pub id: PostId,
    pub creator_id: PersonId,
    pub deleted: bool,
    pub removed: bool,
}

/// A comment, as far as the checks read it.
#[derive(Debug, Clone)]
pub struct Comment {
    pub id: CommentId,
    pub creator_id: PersonId,
    pub parent_id: Option<CommentId>,
    pub content: String,
}

/// The record that a person has read a post.
#[derive(Debug, Clone, Copy, PartialEq, Eq, Structural)]
pub struct PostReadForm {
    pub post_id: PostId,
    pub person_id: PersonId,
}

/// Lets moderators and admins pass.
pub fn is_mod_or_admin(mod_or_admin: bool) -> (r: Result<(), ApiError>)
    ensures
        r == (if mod_or_admin {
            Ok::<(), ApiError>(())
        } else {
            Err(ApiError::NotAModOrAdmin)
        }),
{
    if !mod_or_admin {
        return Err(ApiError::NotAModOrAdmin);
    }
    Ok(())
}

/// Lets admins pass.
pub fn is_admin(local_user_view: &LocalUserView) -> (r: Result<(), ApiError>)
    ensures
        r == (if local_user_view.person.admin {
            Ok::<(), ApiError>(())
        } else {
            Err(ApiError::NotAnAdmin)
        }),
{
    if !local_user_view.person.admin {
        return Err(ApiError::NotAnAdmin);
    }
    Ok(())
}

/// Hands on the post that storage found, or reports that there is none.
pub fn get_post(found: Option<Post>) -> (r: Result<Post, ApiError>)
    ensures
        r == (match found {
            Some(post) => Ok::<Post, ApiError>(post),
            None => Err(ApiError::CouldntFindPost),
        }),
{
    match found {
        Some(post) => Ok(post),
        None => Err(ApiError::CouldntFindPost),
    }
}

/// The record to write when a person has read a post.
pub fn mark_post_as_read(person_id: PersonId, post_id: PostId) -> (r: PostReadForm)
    ensures
        r == (PostReadForm { post_id, person_id }),
{
    PostReadForm { post_id, person_id }
}

/// A token is void when it was issued before the user's validator time,
/// that is before the last change of password.
pub fn check_validator_time(validator_time: i64, claims: &Claims) -> (r: Result<(), ApiError>)
    ensures
        r == (if validator_time > claims.iat {
            Err::<(), ApiError>(ApiError::NotLoggedIn)
        } else {
            Ok(())
        }),
{
    if validator_time > claims.iat {
        Err(ApiError::NotLoggedIn)
    } else {
        Ok(())
    }
}

/// The verdict on the account behind a token: banned and deleted
/// accounts are refused, in that order, then tokens that are void.
pub open spec fn account_verdict(
    banned: bool,
    deleted: bool,
    validator_time: i64,
    issued_at: i64,
) -> Result<(), ApiError> {
    if banned {
        Err(ApiError::SiteBan)
    } else if deleted {
        Err(ApiError::Deleted)
    } else if validator_time > issued_at {
        Err(ApiError::NotLoggedIn)
    } else {
        Ok(())
    }
}

/// Hands on the account that a token stands for, unless the account is
/// banned or deleted or the token is void. `claims` is what the token
/// decoded to, and `local_user_view` what storage holds under its subject.
pub fn get_local_user_view_from_jwt(claims: &Claims, local_user_view: LocalUserView) -> (r: Result<
    LocalUserView,
    ApiError,
>)
    ensures
        match account_verdict(
            local_user_view.person.banned,
            local_user_view.person.deleted,
            local_user_view.local_user.validator_time,
            claims.iat,
        ) {
            Ok(_) => r == Ok::<LocalUserView, ApiError>(local_user_view),
            Err(e) => r == Err::<LocalUserView, ApiError>(e),
        },
{
    if local_user_view.person.banned {
        return Err(ApiError::SiteBan);
    }
    if local_user_view.person.deleted {
        return Err(ApiError::Deleted);
    }
    match check_validator_time(local_user_view.local_user.validator_time, claims) {
        Ok(_) => Ok(local_user_view),
        Err(e) => Err(e),
    }
}

/// As [`get_local_user_view_from_jwt`], for a request that may come
/// without a token: without one there is no account and no error.
pub fn get_local_user_view_from_jwt_opt(session: Option<(Claims, LocalUserView)>) -> (r: Result<
    Option<LocalUserView>,
    ApiError,
>)
    ensures
        match session {
            None => r == Ok::<Option<LocalUserView>, ApiError>(None),
            Some((claims, view)) => match account_verdict(
                view.person.banned,
                view.person.deleted,
                view.local_user.validator_time,
                claims.iat,
            ) {
                Ok(_) => r == Ok::<Option<LocalUserView>, ApiError>(Some(view)),
                Err(e) => r == Err::<Option<LocalUserView>, ApiError>(e),
            },
        },
{
    match session {
        Some((claims, view)) => match get_local_user_view_from_jwt(&claims, view) {
            Ok(v) => Ok(Some(v)),
            Err(e) => Err(e),
        },
        None => Ok(None),
    }
}

/// Hands on the account that a token stands for, as the settings page
/// reads it, unless the account is banned or the token is void.
pub fn get_local_user_settings_view_from_jwt(
    claims: &Claims,
    local_user_view: LocalUserSettingsView,
) -> (r: Result<LocalUserSettingsView, ApiError>)
    ensures
        match account_verdict(
            local_user_view.person.banned,
            false,
            local_user_view.local_user.validator_time,
            claims.iat,
        ) {
            Ok(_) => r == Ok::<LocalUserSettingsView, ApiError>(local_user_view),
            Err(e) => r == Err::<LocalUserSettingsView, ApiError>(e),
        },
{
    if local_user_view.person.banned {
        return Err(ApiError::SiteBan);
    }
    match check_validator_time(local_user_view.local_user.validator_time, claims) {
        Ok(_) => Ok(local_user_view),
        Err(e) => Err(e),
    }
}

/// As [`get_local_user_settings_view_from_jwt`], for a request that may
/// come without a token.
pub fn get_local_user_settings_view_from_jwt_opt(
    session: Option<(Claims, LocalUserSettingsView)>,
) -> (r: Result<Option<LocalUserSettingsView>, ApiError>)
    ensures
        match session {
            None => r == Ok::<Option<LocalUserSettingsView>, ApiError>(None),
            Some((claims, view)) => match account_verdict(
                view.person.banned,
                false,
                view.local_user.validator_time,
                claims.iat,
            ) {
                Ok(_) => r == Ok::<Option<LocalUserSettingsView>, ApiError>(Some(view)),
                Err(e) => r == Err::<Option<LocalUserSettingsView>, ApiError>(e),
            },
        },
{
    match session {
        Some((claims, view)) => match get_local_user_settings_view_from_jwt(&claims, view) {
            Ok(v) => Ok(Some(v)),
            Err(e) => Err(e),
        },
        None => Ok(None),
    }
}

/// Refuses a person who is banned from the community.
pub fn check_community_ban(is_banned: bool) -> (r: Result<(), ApiError>)
    ensures
        r == (if is_banned {
            Err::<(), ApiError>(ApiError::CommunityBan)
        } else {
            Ok(())
        }),
{
    if is_banned {
        Err(ApiError::CommunityBan)
    } else {
        Ok(())
    }
}

/// Refuses a community that is not there, or that is deleted or
/// removed. The two flags are those of the community that storage found.
pub fn check_community_deleted_or_removed(found: Option<(bool, bool)>) -> (r: Result<(), ApiError>)
    ensures
        r == (match found {
            None => Err::<(), ApiError>(ApiError::CouldntFindCommunity),
            Some((deleted, removed)) => if deleted || removed {
                Err(ApiError::Deleted)
            } else {
                Ok(())
            },
        }),
{
    match found {
        None => Err(ApiError::CouldntFindCommunity),
        Some((deleted, removed)) => if deleted || removed {
            Err(ApiError::Deleted)
        } else {
            Ok(())
        },
    }
}

/// Refuses a post that is deleted or removed.
pub fn check_post_deleted_or_removed(post: &Post) -> (r: Result<(), ApiError>)
    ensures
        r == (if post.deleted || post.removed {
            Err::<(), ApiError>(ApiError::Deleted)
        } else {
            Ok(())
        }),
{
    if post.deleted || post.removed {
        Err(ApiError::Deleted)
    } else {
        Ok(())
    }
}

/// Refuses a person whom the other one has blocked.
pub fn check_person_block(is_blocked: bool) -> (r: Result<(), ApiError>)
    ensures
        r == (if is_blocked {
            Err::<(), ApiError>(ApiError::PersonBlock)
        } else {
            Ok(())
        }),
{
    if is_blocked {
        Err(ApiError::PersonBlock)
    } else {
        Ok(())
    }
}

/// Whether a vote with this score needs the site's downvote setting: only a
/// downvote does.
pub fn is_downvote(score: i16) -> (r: bool)
    ensures
        r == (score == -1),
{
    score == -1
}

/// Refuses a downvote where the site has downvotes switched off.
pub fn check_downvotes_enabled(score: i16, enable_downvotes: bool) -> (r: Result<(), ApiError>)
    ensures
        r == (if score == -1 && !enable_downvotes {
            Err::<(), ApiError>(ApiError::DownvotesDisabled)
        } else {
            Ok(())
        }),
{
    if is_downvote(score) {
        if !enable_downvotes {
            return Err(ApiError::DownvotesDisabled);
        }
    }
    Ok(())
}

/// A password has to be 10 to 60 bytes long.
pub fn password_length_check(pass: &str) -> (r: Result<(), ApiError>)
    ensures
        r == (if 10 <= encode_utf8(pass@).len() <= 60 {
            Ok::<(), ApiError>(())
        } else {
            Err(ApiError::InvalidPassword)
        }),
{
    let n = pass.as_bytes().len();
    if n < 10 || n > 60 {
        Err(ApiError::InvalidPassword)
    } else {
        Ok(())
    }
}

/// A site description has to fit in 150 bytes.
pub fn site_description_length_check(description: &str) -> (r: Result<(), ApiError>)
    ensures
        r == (if encode_utf8(description@).len() > 150 {
            Err::<(), ApiError>(ApiError::SiteDescriptionLengthOverflow)
        } else {
            Ok(())
        }),
{
    if description.as_bytes().len() > 150 {
        Err(ApiError::SiteDescriptionLengthOverflow)
    } else {
        Ok(())
    }
}

/// The honeypot field is one that no person fills in: a request that
/// brings it filled is refused.
pub fn honeypot_check(honeypot: &Option<String>) -> (r: Result<(), ApiError>)
    ensures
        r == (if honeypot is Some {
            Err::<(), ApiError>(ApiError::HoneypotFail)
        } else {
            Ok(())
        }),
{
    if honeypot.is_some() {
        Err(ApiError::HoneypotFail)
    } else {
        Ok(())
    }
}

/// The request to mark everything as read.
#[derive(Debug, Clone)]
pub struct MarkAllAsRead {
    pub auth: String,
}

/// The replies that are still unread.
#[derive(Debug, Clone)]
pub struct GetRepliesResponse {
    pub replies: Vec<CommentId>,
}

impl MarkAllAsRead {
    /// Sums up the three updates that mark a person's replies, mentions
    /// and private messages as read, in that order: the first that failed
    /// names the error; after all three nothing is unread.
    pub fn perform(&self, replies_ok: bool, mentions_ok: bool, messages_ok: bool) -> (r: Result<
        GetRepliesResponse,
        ApiError,
    >)
        ensures
            !replies_ok || !mentions_ok ==> r == Err::<GetRepliesResponse, ApiError>(
                ApiError::CouldntUpdateComment,
            ),
            replies_ok && mentions_ok && !messages_ok ==> r == Err::<GetRepliesResponse, ApiError>(
                ApiError::CouldntUpdatePrivateMessage,
            ),
            replies_ok && mentions_ok && messages_ok ==> r is Ok && r->Ok_0.replies@.len() == 0,
    {
        if !replies_ok {
            return Err(ApiError::CouldntUpdateComment);
        }
        if !mentions_ok {
            return Err(ApiError::CouldntUpdateComment);
        }
        if !messages_ok {
            return Err(ApiError::CouldntUpdatePrivateMessage);
        }
        Ok(GetRepliesResponse { replies: Vec::new() })
    }
}

} // verus!
