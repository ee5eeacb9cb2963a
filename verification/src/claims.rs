//! The claims that a login token carries.

use vstd::prelude::*;
use crate::newtypes::LocalUserId;
use crate::text::{i32_text, i32_to_string, lemma_i32_text_reads_back, parse_i32, parsed_i32};
use crate::utils::ApiError;

verus! {

/// The body of a login token.
#[derive(Debug, Clone)]
pub struct Claims {
    /// The local user's id, in decimal.
    pub sub: String,
    /// The hostname of the instance that issued the token.
    pub iss: String,
    /// When the token was issued, in seconds since the epoch.
    pub iat: i64,
}

/// What is kept of a token that was handed out.
#[derive(Debug, Clone)]
pub struct LoginTokenCreateForm {
    pub token: String,
    pub user_id: LocalUserId,
    pub ip: Option<String>,
    pub user_agent: Option<String>,
}

/// The user that a subject stands for once it was read as a number; a
/// subject that is no number is a failure without a name.
pub fn user_of_subject(parsed: Option<i32>) -> (r: Result<LocalUserId, ApiError>)
    ensures
        r == (match parsed {
            Some(id) => Ok::<LocalUserId, ApiError>(LocalUserId(id)),
            None => Err(ApiError::Unknown),
        }),
{
    match parsed {
        Some(id) => Ok(LocalUserId(id)),
        None => Err(ApiError::Unknown),
    }
}

/// The user that decoded claims stand for. A token that did not decode
/// stands for nobody; one whose subject is no number is a failure
/// without a name.
pub open spec fn subject_of(decoded: Option<Claims>) -> Result<LocalUserId, ApiError> {
    match decoded {
        None => Err(ApiError::NotLoggedIn),
        Some(claims) => match parsed_i32(claims.sub@) {
            Some(id) => Ok(LocalUserId(id)),
            None => Err(ApiError::Unknown),
        },
    }
}

impl Claims {
    /// Reads the user from what a token decoded to. Whether the token
    /// is one that was handed out and not withdrawn is for storage to say.
    pub fn validate(decoded: Option<&Claims>) -> (r: Result<LocalUserId, ApiError>)
        ensures
            r == subject_of(
                match decoded {
                    Some(c) => Some(*c),
                    None => None,
                },
            ),
    {
        match decoded {
            None => Err(ApiError::NotLoggedIn),
            Some(claims) => user_of_subject(parse_i32(claims.sub.as_str())),
        }
    }

    /// The claims of a token with the given subject, issuer and time of issue.
    pub fn with_subject(sub: String, iss: String, iat: i64) -> (r: Claims)
        ensures
            r.sub == sub,
            r.iss == iss,
            r.iat == iat,
    {
        Claims { sub, iss, iat }
    }

    /// The claims of a token that is issued to `user_id` by the instance
    /// `hostname` at the time `now`.
    pub fn generate(user_id: LocalUserId, hostname: String, now: i64) -> (r: Claims)
        ensures
            r.sub@ == i32_text(user_id.0),
            r.iss == hostname,
            r.iat == now,
    {
        Claims::with_subject(i32_to_string(user_id.0), hostname, now)
    }

    /// The record of a token that was signed for `user_id`, with the
    /// address and the user agent of the request where they are known.
    pub fn login_token(token: String, user_id: LocalUserId, ip: Option<String>, user_agent: Option<
        String,
    >) -> (r: LoginTokenCreateForm)
        ensures
            r.token == token,
            r.user_id == user_id,
            r.ip == ip,
            r.user_agent == user_agent,
    {
        LoginTokenCreateForm { token, user_id, ip, user_agent }
    }
}

/// The claims that are generated for a user are read back as that
/// user: whatever issuer and time they carry, a token whose subject was
/// written for the user `id` stands for `id`.
pub proof fn lemma_validate_reads_what_generate_wrote(claims: Claims, id: LocalUserId)
    requires
        claims.sub@ == i32_text(id.0),
    ensures
        subject_of(Some(claims)) == Ok::<LocalUserId, ApiError>(id),
{
    lemma_i32_text_reads_back(id.0);
}

} // verus!
