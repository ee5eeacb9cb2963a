use lemmy_federation::dispatcher::{
    handler_for, ingest, ingest_checked, is_terminal, kind_of_tag, step, validate_domains,
    validate_envelope, verify,
    ActivityEnvelope, ActivityKind, ActivityObject, DispatchAction, DispatchEvent, DispatchState,
    Effect, ResolvedRefs, VerifyRule,
};
use lemmy_federation::error::FederationError;
use lemmy_federation::following::{AcceptFollow, Follow};
use lemmy_federation::delivery::DeliveryTarget;
use lemmy_federation::journal::{ActivityJournal, JournalOutcome};
use lemmy_federation::policy::{Instance, LocalSite, LocalSiteData};

fn open_policy() -> LocalSiteData {
    LocalSiteData::new(Some(LocalSite { federation_enabled: true }), vec![], vec![])
}

fn envelope(id: &str, kind: &str, actor: &str, object: &str) -> ActivityEnvelope {
    ActivityEnvelope {
        id: id.to_string(),
        kind: kind.to_string(),
        actor: actor.to_string(),
        object: ActivityObject::Reference(object.to_string()),
    }
}

const ALL: ResolvedRefs =
    ResolvedRefs { object_exists: true, actor_may_modify: true, follow_requested: true };

#[test]
fn tags_name_the_closed_set_of_kinds() {
    assert_eq!(kind_of_tag("Follow"), Some(ActivityKind::Follow));
    assert_eq!(kind_of_tag("Accept"), Some(ActivityKind::Accept));
    assert_eq!(kind_of_tag("Undo"), Some(ActivityKind::Undo));
    assert_eq!(kind_of_tag("Create"), Some(ActivityKind::Create));
    assert_eq!(kind_of_tag("Update"), Some(ActivityKind::Update));
    assert_eq!(kind_of_tag("Delete"), Some(ActivityKind::Delete));
    assert_eq!(kind_of_tag("Like"), Some(ActivityKind::Like));
    assert_eq!(kind_of_tag("Dislike"), Some(ActivityKind::Dislike));
    assert_eq!(kind_of_tag("Announce"), Some(ActivityKind::Announce));
    assert_eq!(kind_of_tag("follow"), None);
    assert_eq!(kind_of_tag("Move"), None);
    assert_eq!(kind_of_tag(""), None);
}

#[test]
fn registry_pairs_each_kind_with_its_handlers() {
    assert_eq!(handler_for(ActivityKind::Follow).apply, Effect::CreateFollow);
    assert_eq!(handler_for(ActivityKind::Follow).verify, VerifyRule::ObjectExists);
    assert_eq!(handler_for(ActivityKind::Accept).apply, Effect::AcceptFollow);
    assert_eq!(handler_for(ActivityKind::Accept).verify, VerifyRule::AnswersFollow);
    assert_eq!(handler_for(ActivityKind::Delete).apply, Effect::SoftDelete);
    assert_eq!(handler_for(ActivityKind::Delete).verify, VerifyRule::ObjectMutableByActor);
    assert_eq!(handler_for(ActivityKind::Update).verify, VerifyRule::ObjectMutableByActor);
    assert_eq!(handler_for(ActivityKind::Undo).apply, Effect::UndoPrevious);
    assert_eq!(handler_for(ActivityKind::Like).apply, Effect::Upvote);
    assert_eq!(handler_for(ActivityKind::Dislike).apply, Effect::Downvote);
    assert_eq!(handler_for(ActivityKind::Create).apply, Effect::CreateObject);
    assert_eq!(handler_for(ActivityKind::Announce).apply, Effect::AnnounceObject);
}

#[test]
fn unknown_type_is_unhandled() {
    let e = envelope("https://a.example/a/1", "Move", "https://a.example/u/1", "https://b.example/c/1");
    assert!(matches!(
        verify(&e, "https://a.example/u/1", &ALL),
        Err(FederationError::UnhandledActivityType)
    ));
}

#[test]
fn actor_must_be_the_signer() {
    let e = envelope("https://a.example/a/1", "Like", "https://a.example/u/1", "https://b.example/post/1");
    assert!(matches!(
        verify(&e, "https://a.example/u/2", &ALL),
        Err(FederationError::VerificationFailed(ref m)) if m == "actor does not match signer"
    ));
    assert!(matches!(verify(&e, "https://a.example/u/1", &ALL), Ok(Effect::Upvote)));
}

#[test]
fn object_must_exist_and_be_mutable_where_it_is_changed() {
    let gone = ResolvedRefs { object_exists: false, actor_may_modify: true, follow_requested: false };
    let foreign = ResolvedRefs { object_exists: true, actor_may_modify: false, follow_requested: false };
    for kind in ["Follow", "Create", "Like", "Dislike", "Announce", "Undo", "Update", "Delete"] {
        let e = envelope("https://a.example/a/1", kind, "https://a.example/u/1", "https://b.example/post/1");
        assert!(matches!(
            verify(&e, "https://a.example/u/1", &gone),
            Err(FederationError::VerificationFailed(ref m)) if m == "object not found"
        ));
    }
    for kind in ["Undo", "Update", "Delete"] {
        let e = envelope("https://a.example/a/1", kind, "https://a.example/u/1", "https://b.example/post/1");
        assert!(matches!(
            verify(&e, "https://a.example/u/1", &foreign),
            Err(FederationError::VerificationFailed(ref m)) if m == "actor may not change object"
        ));
    }
    for (kind, effect) in [("Follow", Effect::CreateFollow), ("Dislike", Effect::Downvote)] {
        let e = envelope("https://a.example/a/1", kind, "https://a.example/u/1", "https://b.example/post/1");
        assert_eq!(verify(&e, "https://a.example/u/1", &foreign).ok(), Some(effect));
    }
    let e = envelope("https://a.example/a/1", "Delete", "https://a.example/u/1", "https://a.example/post/1");
    assert_eq!(verify(&e, "https://a.example/u/1", &ALL).ok(), Some(Effect::SoftDelete));
}

#[test]
fn accept_must_answer_a_follow_of_its_actor() {
    let accept = AcceptFollow {
        actor: "https://b.example/c/3".to_string(),
        object: Follow {
            actor: "https://a.example/person/7".to_string(),
            object: "https://b.example/c/3".to_string(),
            id: "https://a.example/activities/follow/1".to_string(),
        },
        id: "https://b.example/activities/accept/1".to_string(),
    };
    let e = accept.to_envelope();
    assert_eq!(verify(&e, "https://b.example/c/3", &ALL).ok(), Some(Effect::AcceptFollow));
    let never_asked = ResolvedRefs { object_exists: true, actor_may_modify: true, follow_requested: false };
    assert!(matches!(
        verify(&e, "https://b.example/c/3", &never_asked),
        Err(FederationError::VerificationFailed(ref m)) if m == "no follow was requested"
    ));
    let mut other = accept.clone();
    other.object.object = "https://b.example/c/4".to_string();
    assert!(matches!(
        verify(&other.to_envelope(), "https://b.example/c/3", &ALL),
        Err(FederationError::VerificationFailed(ref m)) if m == "Urls do not match"
    ));
    let bare = envelope("https://b.example/a/2", "Accept", "https://b.example/c/3", "https://a.example/activities/follow/1");
    assert!(matches!(
        verify(&bare, "https://b.example/c/3", &ALL),
        Err(FederationError::VerificationFailed(ref m)) if m == "Urls do not match"
    ));
}

#[test]
fn states_follow_one_another_in_order() {
    let (s, a) = step(DispatchState::Received, DispatchEvent::DomainsChecked(true));
    assert_eq!((s, a), (DispatchState::DomainValidated, DispatchAction::RecordInJournal));
    let (s, a) = step(s, DispatchEvent::Journal(JournalOutcome::Inserted));
    assert_eq!((s, a), (DispatchState::Deduplicated, DispatchAction::ResolveActor));
    let (s, a) = step(s, DispatchEvent::ActorResolved(true));
    assert_eq!((s, a), (DispatchState::ActorResolved, DispatchAction::Verify));
    let (s, a) = step(s, DispatchEvent::Verified(Some(Effect::Upvote)));
    assert_eq!((s, a), (DispatchState::TypeVerified, DispatchAction::Apply(Effect::Upvote)));
    assert!(!is_terminal(s));
    let (s, a) = step(s, DispatchEvent::Applied);
    assert_eq!((s, a), (DispatchState::Applied, DispatchAction::Finish));
    assert!(is_terminal(s));
}

#[test]
fn failures_reject_and_duplicates_finish() {
    assert_eq!(
        step(DispatchState::Received, DispatchEvent::DomainsChecked(false)),
        (DispatchState::Rejected, DispatchAction::Abort)
    );
    assert_eq!(
        step(DispatchState::DomainValidated, DispatchEvent::Journal(JournalOutcome::AlreadyExists)),
        (DispatchState::AlreadyExists, DispatchAction::Finish)
    );
    assert_eq!(
        step(DispatchState::Deduplicated, DispatchEvent::ActorResolved(false)),
        (DispatchState::Rejected, DispatchAction::Abort)
    );
    assert_eq!(
        step(DispatchState::ActorResolved, DispatchEvent::Verified(None)),
        (DispatchState::Rejected, DispatchAction::Abort)
    );
}

#[test]
fn events_out_of_turn_change_nothing() {
    let events = [
        DispatchEvent::DomainsChecked(true),
        DispatchEvent::Journal(JournalOutcome::Inserted),
        DispatchEvent::ActorResolved(true),
        DispatchEvent::Verified(Some(Effect::CreateObject)),
        DispatchEvent::Applied,
    ];
    for state in [DispatchState::Applied, DispatchState::AlreadyExists, DispatchState::Rejected] {
        for event in events {
            assert_eq!(step(state, event), (state, DispatchAction::Ignore));
        }
    }
    // no effect is applied before the journal has taken the id
    assert_eq!(
        step(DispatchState::Received, DispatchEvent::Verified(Some(Effect::CreateObject))),
        (DispatchState::Received, DispatchAction::Ignore)
    );
    assert_eq!(
        step(DispatchState::DomainValidated, DispatchEvent::Verified(Some(Effect::CreateObject))),
        (DispatchState::DomainValidated, DispatchAction::Ignore)
    );
    assert_eq!(
        step(DispatchState::DomainValidated, DispatchEvent::Applied),
        (DispatchState::DomainValidated, DispatchAction::Ignore)
    );
}

#[test]
fn envelope_needs_both_domains_to_pass() {
    let data = LocalSiteData::new(
        Some(LocalSite { federation_enabled: true }),
        vec![],
        vec![Instance { domain: "bad.example".to_string() }],
    );
    let ok = envelope("https://a.example/a/1", "Like", "https://a.example/u/1", "https://home.example/post/1");
    assert!(validate_envelope(&ok, false, "home.example", &data).is_ok());
    let bad_id = envelope("https://bad.example/a/1", "Like", "https://a.example/u/1", "x");
    assert!(matches!(
        validate_envelope(&bad_id, false, "home.example", &data),
        Err(FederationError::DomainBlocked(_))
    ));
    let bad_actor = envelope("https://a.example/a/1", "Like", "https://BAD.example/u/1", "x");
    assert!(matches!(
        validate_envelope(&bad_actor, false, "home.example", &data),
        Err(FederationError::DomainBlocked(_))
    ));
    let no_id = envelope("nonsense", "Like", "https://bad.example/u/1", "x");
    assert!(matches!(
        validate_envelope(&no_id, false, "home.example", &data),
        Err(FederationError::UrlWithoutDomain)
    ));
}

#[test]
fn redelivering_an_applied_activity_has_no_further_effect() {
    let data = open_policy();
    let mut journal = ActivityJournal::new();
    let e = envelope("https://a.example/a/1", "Like", "https://a.example/u/1", "https://home.example/post/1");
    let first = ingest(&mut journal, &e, "https://a.example/u/1", &ALL, false, "home.example", &data, 10);
    assert_eq!(first.state, DispatchState::TypeVerified);
    assert_eq!(first.effect, Some(Effect::Upvote));
    assert!(first.error.is_none());
    assert_eq!(journal.len(), 1);
    for now in [11, 12] {
        let again = ingest(&mut journal, &e, "https://a.example/u/1", &ALL, false, "home.example", &data, now);
        assert_eq!(again.state, DispatchState::AlreadyExists);
        assert_eq!(again.effect, None);
        assert!(again.error.is_none());
        assert_eq!(journal.len(), 1);
        assert_eq!(journal.first_seen("https://a.example/a/1"), Some(10));
    }
}

#[test]
fn refused_domains_never_reach_the_journal() {
    let data = LocalSiteData::new(Some(LocalSite { federation_enabled: false }), vec![], vec![]);
    let mut journal = ActivityJournal::new();
    let e = envelope("https://a.example/a/1", "Like", "https://a.example/u/1", "https://home.example/post/1");
    let r = ingest(&mut journal, &e, "https://a.example/u/1", &ALL, false, "home.example", &data, 10);
    assert_eq!(r.state, DispatchState::Rejected);
    assert_eq!(r.effect, None);
    assert!(matches!(r.error, Some(FederationError::FederationDisabled)));
    assert_eq!(journal.len(), 0);
}

#[test]
fn failed_verification_is_recorded_but_not_applied() {
    let data = open_policy();
    let mut journal = ActivityJournal::new();
    let e = envelope("https://a.example/a/9", "Teleport", "https://a.example/u/1", "https://home.example/post/1");
    let r = ingest(&mut journal, &e, "https://a.example/u/1", &ALL, false, "home.example", &data, 10);
    assert_eq!(r.state, DispatchState::Rejected);
    assert_eq!(r.effect, None);
    assert!(matches!(r.error, Some(FederationError::UnhandledActivityType)));
    assert!(journal.contains("https://a.example/a/9"));
}

#[test]
fn follow_is_accepted_across_two_instances() {
    // instance A: a.example, instance B: b.example
    let policy_a = open_policy();
    let policy_b = open_policy();
    let mut journal_a = ActivityJournal::new();
    let mut journal_b = ActivityJournal::new();

    // A sends Follow(actor = A/person/7, object = B/community/3)
    let follow = Follow {
        actor: "https://a.example/person/7".to_string(),
        object: "https://b.example/community/3".to_string(),
        id: "https://a.example/activities/follow/1".to_string(),
    };
    let community_exists = ResolvedRefs { object_exists: true, actor_may_modify: false, follow_requested: false };
    let at_b = ingest(
        &mut journal_b,
        &follow.to_envelope(),
        "https://a.example/person/7",
        &community_exists,
        false,
        "b.example",
        &policy_b,
        1000,
    );
    assert_eq!(at_b.state, DispatchState::TypeVerified);
    assert_eq!(at_b.effect, Some(Effect::CreateFollow));
    assert_eq!(
        step(at_b.state, DispatchEvent::Applied),
        (DispatchState::Applied, DispatchAction::Finish)
    );

    // B issues Accept back to A
    let person_inbox = DeliveryTarget {
        inbox: "https://a.example/person/7/inbox".to_string(),
        shared_inbox: Some("https://a.example/inbox".to_string()),
    };
    let out = AcceptFollow::send(
        follow.clone(),
        "https://b.example/community/3".to_string(),
        "https://b.example/activities/accept/1".to_string(),
        person_inbox,
        "b.example",
        &policy_b,
    );
    assert_eq!(out.inboxes, vec!["https://a.example/inbox".to_string()]);
    assert_eq!(out.activity.actor, "https://b.example/community/3");
    assert_eq!(out.activity.object.id, follow.id);
    assert!(out.activity.verify().is_ok());

    // A verifies that the Accept answers a follow it sent, and applies it
    let follow_was_sent = ResolvedRefs { object_exists: true, actor_may_modify: false, follow_requested: true };
    let at_a = ingest(
        &mut journal_a,
        &out.activity.to_envelope(),
        "https://b.example/community/3",
        &follow_was_sent,
        false,
        "a.example",
        &policy_a,
        1001,
    );
    assert_eq!(at_a.state, DispatchState::TypeVerified);
    assert_eq!(at_a.effect, Some(Effect::AcceptFollow));
    let accepted = out.activity.receive();
    assert_eq!(accepted.community, "https://b.example/community/3");
    assert_eq!(accepted.person, "https://a.example/person/7");
}

#[test]
fn intake_after_the_domains_were_judged() {
    let mut journal = ActivityJournal::new();
    let e = envelope("https://a.example/a/1", "Create", "https://a.example/u/1", "https://home.example/post/1");
    let refused = ingest_checked(
        &mut journal,
        Err(FederationError::DomainBlocked("a.example".to_string())),
        &e,
        "https://a.example/u/1",
        &ALL,
        5,
    );
    assert_eq!(refused.state, DispatchState::Rejected);
    assert!(matches!(refused.error, Some(FederationError::DomainBlocked(_))));
    assert_eq!(journal.len(), 0);
    let taken = ingest_checked(&mut journal, Ok(()), &e, "https://a.example/u/1", &ALL, 6);
    assert_eq!(taken.state, DispatchState::TypeVerified);
    assert_eq!(taken.effect, Some(Effect::CreateObject));
    assert_eq!(journal.first_seen("https://a.example/a/1"), Some(6));
    let again = ingest_checked(&mut journal, Ok(()), &e, "https://someone.else/u/1", &ALL, 7);
    assert_eq!(again.state, DispatchState::AlreadyExists);
    assert_eq!(again.effect, None);
    assert_eq!(journal.first_seen("https://a.example/a/1"), Some(6));
}

#[test]
fn both_domains_are_judged_the_id_first() {
    let data = LocalSiteData::new(
        Some(LocalSite { federation_enabled: true }),
        vec![Instance { domain: "good.example".to_string() }],
        vec![Instance { domain: "bad.example".to_string() }],
    );
    assert!(validate_domains(Some("good.example"), Some("home.example"), true, "home.example", &data).is_ok());
    assert!(matches!(
        validate_domains(Some("bad.example"), None, false, "home.example", &data),
        Err(FederationError::DomainBlocked(_))
    ));
    assert!(matches!(
        validate_domains(Some("good.example"), None, false, "home.example", &data),
        Err(FederationError::UrlWithoutDomain)
    ));
    assert!(matches!(
        validate_domains(Some("good.example"), Some("other.example"), false, "home.example", &data),
        Err(FederationError::DomainNotInAllowList(ref d)) if d == "other.example"
    ));
}
