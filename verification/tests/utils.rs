use lemmy_federation::claims::{user_of_subject, Claims};
use lemmy_federation::comment::{get_apub_comment, requested_comment, ApubComment, CommentQuery, CommentResponse};
use lemmy_federation::newtypes::{CommentId, LocalUserId, PersonId, PostId};
use lemmy_federation::utils::{
    check_community_ban, check_community_deleted_or_removed, check_downvotes_enabled,
    check_person_block, check_post_deleted_or_removed, check_validator_time, get_local_user_settings_view_from_jwt,
    get_local_user_settings_view_from_jwt_opt, get_local_user_view_from_jwt,
    get_local_user_view_from_jwt_opt, get_post, honeypot_check, is_admin, is_downvote,
    is_mod_or_admin, mark_post_as_read, password_length_check, site_description_length_check,
    ApiError, LocalUser, LocalUserSettingsView, LocalUserView, MarkAllAsRead, Person, Post,
    PostReadForm,
};

fn user(admin: bool, banned: bool, deleted: bool, validator_time: i64) -> LocalUserView {
    LocalUserView {
        local_user: LocalUser {
            id: LocalUserId(5),
            email: Some("gerry@my_domain.tld".to_string()),
            send_notifications_to_email: true,
            validator_time,
        },
        person: Person { id: PersonId(50), name: "Gerry9812".to_string(), admin, banned, deleted },
    }
}

fn settings_user(banned: bool, deleted: bool, validator_time: i64) -> LocalUserSettingsView {
    let u = user(false, banned, deleted, validator_time);
    LocalUserSettingsView { local_user: u.local_user, person: u.person }
}

fn claims(iat: i64) -> Claims {
    Claims::generate(LocalUserId(5), "my_domain.tld".to_string(), iat)
}

#[test]
fn test_should_not_validate_user_token_after_password_change() {
    let token = claims(1000);
    assert_eq!(token.sub, "5");
    assert_eq!(token.iss, "my_domain.tld");
    let valid = Claims::validate(Some(&token));
    assert!(valid.is_ok());
    assert_eq!(valid, Ok(LocalUserId(5)));
    // issued before the password was changed
    assert_eq!(check_validator_time(1001, &token), Err(ApiError::NotLoggedIn));
    assert_eq!(check_validator_time(1000, &token), Ok(()));
    assert_eq!(check_validator_time(999, &token), Ok(()));
    assert_eq!(get_local_user_view_from_jwt(&token, user(false, false, false, 1001)).err(), Some(ApiError::NotLoggedIn));
}

#[test]
fn claims_subject_is_the_user_id_in_decimal() {
    assert_eq!(Claims::generate(LocalUserId(-12), "h".to_string(), 0).sub, "-12");
    assert_eq!(Claims::generate(LocalUserId(i32::MAX), "h".to_string(), 0).sub, "2147483647");
    assert_eq!(Claims::validate(None), Err(ApiError::NotLoggedIn));
    let mut c = claims(1);
    c.sub = "12a".to_string();
    assert_eq!(Claims::validate(Some(&c)), Err(ApiError::Unknown));
    c.sub = "2147483648".to_string();
    assert_eq!(Claims::validate(Some(&c)), Err(ApiError::Unknown));
    c.sub = "-7".to_string();
    assert_eq!(Claims::validate(Some(&c)), Ok(LocalUserId(-7)));
    for (text, id) in [("+7", 7), ("007", 7), ("-0", 0), ("-2147483648", i32::MIN), ("2147483647", i32::MAX)] {
        c.sub = text.to_string();
        assert_eq!(Claims::validate(Some(&c)), Ok(LocalUserId(id)));
    }
    for text in ["", "-", "+", "+-7", " 7", "7 ", "-2147483649", "99999999999", "٣", "1e3", "0x10"] {
        c.sub = text.to_string();
        assert_eq!(Claims::validate(Some(&c)), Err(ApiError::Unknown));
    }
    // what is generated for a user is read back as that user
    for id in [0, 1, 9, 10, 12345, -1, -10, i32::MAX, i32::MIN] {
        let made = Claims::generate(LocalUserId(id), "h".to_string(), 0);
        assert_eq!(Claims::validate(Some(&made)), Ok(LocalUserId(id)));
    }
    assert_eq!(Claims::generate(LocalUserId(i32::MIN), "h".to_string(), 0).sub, "-2147483648");
    assert_eq!(Claims::generate(LocalUserId(0), "h".to_string(), 0).sub, "0");
    let form = Claims::login_token("tok".to_string(), LocalUserId(5), Some("10.0.0.1".to_string()), None);
    assert_eq!(form.token, "tok");
    assert_eq!(form.user_id, LocalUserId(5));
    assert_eq!(form.ip.as_deref(), Some("10.0.0.1"));
    assert_eq!(form.user_agent, None);
}

#[test]
fn account_checks_come_in_order() {
    let token = claims(1000);
    assert_eq!(get_local_user_view_from_jwt(&token, user(false, true, true, 2000)).err(), Some(ApiError::SiteBan));
    assert_eq!(get_local_user_view_from_jwt(&token, user(false, false, true, 2000)).err(), Some(ApiError::Deleted));
    assert_eq!(get_local_user_view_from_jwt(&token, user(false, false, false, 2000)).err(), Some(ApiError::NotLoggedIn));
    let ok = get_local_user_view_from_jwt(&token, user(false, false, false, 500)).ok().unwrap();
    assert_eq!(ok.person.name, "Gerry9812");
    assert!(matches!(get_local_user_view_from_jwt_opt(None), Ok(None)));
    assert!(matches!(get_local_user_view_from_jwt_opt(Some((claims(1000), user(false, false, false, 1)))), Ok(Some(_))));
    assert!(matches!(get_local_user_view_from_jwt_opt(Some((claims(1000), user(false, true, false, 1)))), Err(ApiError::SiteBan)));
    // the settings page still serves a deleted account
    assert!(get_local_user_settings_view_from_jwt(&token, settings_user(false, true, 1)).is_ok());
    assert_eq!(get_local_user_settings_view_from_jwt(&token, settings_user(true, false, 1)).err(), Some(ApiError::SiteBan));
    assert_eq!(get_local_user_settings_view_from_jwt(&token, settings_user(false, false, 1001)).err(), Some(ApiError::NotLoggedIn));
    assert!(matches!(get_local_user_settings_view_from_jwt_opt(None), Ok(None)));
    assert!(matches!(get_local_user_settings_view_from_jwt_opt(Some((claims(5), settings_user(false, false, 6)))), Err(ApiError::NotLoggedIn)));
    assert!(matches!(get_local_user_settings_view_from_jwt_opt(Some((claims(5), settings_user(false, false, 5)))), Ok(Some(_))));
}

#[test]
fn simple_checks() {
    assert_eq!(is_mod_or_admin(true), Ok(()));
    assert_eq!(is_mod_or_admin(false), Err(ApiError::NotAModOrAdmin));
    assert_eq!(is_admin(&user(true, false, false, 0)), Ok(()));
    assert_eq!(is_admin(&user(false, false, false, 0)), Err(ApiError::NotAnAdmin));
    assert_eq!(check_community_ban(true), Err(ApiError::CommunityBan));
    assert_eq!(check_community_ban(false), Ok(()));
    assert_eq!(check_person_block(true), Err(ApiError::PersonBlock));
    assert_eq!(check_person_block(false), Ok(()));
    assert_eq!(check_community_deleted_or_removed(None), Err(ApiError::CouldntFindCommunity));
    assert_eq!(check_community_deleted_or_removed(Some((false, false))), Ok(()));
    assert_eq!(check_community_deleted_or_removed(Some((true, false))), Err(ApiError::Deleted));
    assert_eq!(check_community_deleted_or_removed(Some((false, true))), Err(ApiError::Deleted));
    let post = Post { id: PostId(1), creator_id: PersonId(2), deleted: false, removed: false };
    assert_eq!(check_post_deleted_or_removed(&post), Ok(()));
    assert_eq!(check_post_deleted_or_removed(&Post { deleted: true, ..post }), Err(ApiError::Deleted));
    assert_eq!(check_post_deleted_or_removed(&Post { removed: true, ..post }), Err(ApiError::Deleted));
    assert_eq!(get_post(Some(post)).map(|p| p.id), Ok(PostId(1)));
    assert_eq!(get_post(None).err(), Some(ApiError::CouldntFindPost));
    assert_eq!(mark_post_as_read(PersonId(2), PostId(1)), PostReadForm { post_id: PostId(1), person_id: PersonId(2) });
    assert_eq!(honeypot_check(&None), Ok(()));
    assert_eq!(honeypot_check(&Some(String::new())), Err(ApiError::HoneypotFail));
}

#[test]
fn downvotes() {
    assert!(is_downvote(-1));
    assert!(!is_downvote(1));
    assert!(!is_downvote(0));
    assert_eq!(check_downvotes_enabled(-1, false), Err(ApiError::DownvotesDisabled));
    assert_eq!(check_downvotes_enabled(-1, true), Ok(()));
    assert_eq!(check_downvotes_enabled(1, false), Ok(()));
    assert_eq!(check_downvotes_enabled(0, false), Ok(()));
    assert_eq!(check_downvotes_enabled(-2, false), Ok(()));
}

#[test]
fn lengths_are_counted_in_bytes() {
    assert_eq!(password_length_check("123456789"), Err(ApiError::InvalidPassword));
    assert_eq!(password_length_check("1234567890"), Ok(()));
    assert_eq!(password_length_check(&"a".repeat(60)), Ok(()));
    assert_eq!(password_length_check(&"a".repeat(61)), Err(ApiError::InvalidPassword));
    assert_eq!(password_length_check(""), Err(ApiError::InvalidPassword));
    // five characters of two bytes each
    assert_eq!(password_length_check("ééééé"), Ok(()));
    assert_eq!(site_description_length_check(&"d".repeat(150)), Ok(()));
    assert_eq!(site_description_length_check(&"d".repeat(151)), Err(ApiError::SiteDescriptionLengthOverflow));
    assert_eq!(site_description_length_check(&"é".repeat(76)), Err(ApiError::SiteDescriptionLengthOverflow));
    assert_eq!(site_description_length_check(""), Ok(()));
}

#[test]
fn errors_have_their_names() {
    assert_eq!(ApiError::NotLoggedIn.message(), "not_logged_in");
    assert_eq!(ApiError::NotAModOrAdmin.message(), "not_a_mod_or_admin");
    assert_eq!(ApiError::NotAnAdmin.message(), "not_an_admin");
    assert_eq!(ApiError::CouldntFindPost.message(), "couldnt_find_post");
    assert_eq!(ApiError::CouldntMarkPostAsRead.message(), "couldnt_mark_post_as_read");
    assert_eq!(ApiError::SiteBan.message(), "site_ban");
    assert_eq!(ApiError::Deleted.message(), "deleted");
    assert_eq!(ApiError::CommunityBan.message(), "community_ban");
    assert_eq!(ApiError::CouldntFindCommunity.message(), "couldnt_find_community");
    assert_eq!(ApiError::PersonBlock.message(), "person_block");
    assert_eq!(ApiError::DownvotesDisabled.message(), "downvotes_disabled");
    assert_eq!(ApiError::InvalidPassword.message(), "invalid_password");
    assert_eq!(ApiError::SiteDescriptionLengthOverflow.message(), "site_description_length_overflow");
    assert_eq!(ApiError::HoneypotFail.message(), "honeypot_fail");
    assert_eq!(ApiError::CouldntUpdateComment.message(), "couldnt_update_comment");
    assert_eq!(ApiError::CouldntUpdatePrivateMessage.message(), "couldnt_update_private_message");
    assert_eq!(ApiError::Unknown.message(), "unknown");
}

#[test]
fn mark_all_as_read_reports_the_first_failure() {
    let request = MarkAllAsRead { auth: "token".to_string() };
    assert_eq!(request.perform(true, true, true).map(|r| r.replies.len()), Ok(0));
    assert_eq!(request.perform(false, true, true).err(), Some(ApiError::CouldntUpdateComment));
    assert_eq!(request.perform(true, false, false).err(), Some(ApiError::CouldntUpdateComment));
    assert_eq!(request.perform(true, true, false).err(), Some(ApiError::CouldntUpdatePrivateMessage));
}

#[test]
fn comments_are_served_or_buried() {
    let c = ApubComment {
        id: CommentId(3),
        ap_id: "https://home.example/comment/3".to_string(),
        local: true,
        deleted: false,
        removed: false,
    };
    assert!(matches!(get_apub_comment(c.clone()), CommentResponse::Object(CommentId(3))));
    assert!(matches!(get_apub_comment(ApubComment { deleted: true, ..c.clone() }), CommentResponse::Tombstone(ref u) if u == "https://home.example/comment/3"));
    assert!(matches!(get_apub_comment(ApubComment { removed: true, ..c.clone() }), CommentResponse::Tombstone(_)));
    assert!(matches!(get_apub_comment(ApubComment { local: false, ..c.clone() }), CommentResponse::NotFound));
    assert!(matches!(get_apub_comment(ApubComment { local: false, deleted: true, ..c }), CommentResponse::NotFound));
    assert_eq!(requested_comment(&CommentQuery { comment_id: "42".to_string() }), Some(CommentId(42)));
    assert_eq!(requested_comment(&CommentQuery { comment_id: "+42".to_string() }), Some(CommentId(42)));
    assert_eq!(requested_comment(&CommentQuery { comment_id: "4 2".to_string() }), None);
    assert_eq!(requested_comment(&CommentQuery { comment_id: "".to_string() }), None);
}

#[test]
fn subject_read_as_a_number_names_the_user() {
    assert_eq!(user_of_subject(Some(12)), Ok(LocalUserId(12)));
    assert_eq!(user_of_subject(Some(-1)), Ok(LocalUserId(-1)));
    assert_eq!(user_of_subject(None), Err(ApiError::Unknown));
    let c = Claims::with_subject("77".to_string(), "host".to_string(), 9);
    assert_eq!((c.sub.as_str(), c.iss.as_str(), c.iat), ("77", "host", 9));
    assert_eq!(Claims::validate(Some(&c)), Ok(LocalUserId(77)));
}
