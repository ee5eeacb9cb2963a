//! The activity dispatcher: the states an inbound activity passes
//! through, the checks of each activity type, and the effect that is
//! applied once all of them have passed.

use vstd::prelude::*;
use crate::error::{outcome_view, FederationError, FederationErrorView};
use crate::journal::{appended, recorded, ActivityJournal, JournalOutcome};
use crate::policy::LocalSiteData;
use crate::text::str_eq;
use crate::validator::{
    check_apub_id_valid_with_strictness, check_domain_valid_with_strictness, strict_verdict,
    url_domain,
};

verus! {

/// The closed set of activity types that have a handler.
#[derive(Debug, Clone, Copy, PartialEq, Eq, Structural)]
pub enum ActivityKind {
    Follow,
    Accept,
    Undo,
    Create,
    Update,
    Delete,
    Like,
    Dislike,
    Announce,
}

/// What a verified activity does to local state.
#[derive(Debug, Clone, Copy, PartialEq, Eq, Structural)]
pub enum Effect {
    /// Create a follow edge from the actor to the object.
    CreateFollow,
    /// Mark the follow that the activity answers as accepted.
    AcceptFollow,
    /// Take back what an earlier activity did.
    UndoPrevious,
    /// Store the new object.
    CreateObject,
    /// Replace the stored object.
    UpdateObject,
    /// Mark the stored object as deleted.
    SoftDelete,
    /// Record a vote in favour.
    Upvote,
    /// Record a vote against.
    Downvote,
    /// Pass the object on to the followers.
    AnnounceObject,
}

/// The check that an activity type asks of what was resolved for it.
#[derive(Debug, Clone, Copy, PartialEq, Eq, Structural)]
pub enum VerifyRule {
    /// The object, or the parent of a new object, exists.
    ObjectExists,
    /// The object exists and the actor may change it.
    ObjectMutableByActor,
    /// The activity answers a follow that was sent to its actor.
    AnswersFollow,
}

/// The pair of handlers of one activity type.
#[derive(Debug, Clone, Copy, PartialEq, Eq, Structural)]
pub struct Handler {
    pub verify: VerifyRule,
    pub apply: Effect,
}

/// The registry: which handlers serve which activity type.
pub open spec fn handler_of(kind: ActivityKind) -> Handler {
    match kind {
        ActivityKind::Follow => Handler {
            verify: VerifyRule::ObjectExists,
            apply: Effect::CreateFollow,
        },
        ActivityKind::Accept => Handler {
            verify: VerifyRule::AnswersFollow,
            apply: Effect::AcceptFollow,
        },
        ActivityKind::Undo => Handler {
            verify: VerifyRule::ObjectMutableByActor,
            apply: Effect::UndoPrevious,
        },
        ActivityKind::Create => Handler {
            verify: VerifyRule::ObjectExists,
            apply: Effect::CreateObject,
        },
        ActivityKind::Update => Handler {
            verify: VerifyRule::ObjectMutableByActor,
            apply: Effect::UpdateObject,
        },
        ActivityKind::Delete => Handler {
            verify: VerifyRule::ObjectMutableByActor,
            apply: Effect::SoftDelete,
        },
        ActivityKind::Like => Handler { verify: VerifyRule::ObjectExists, apply: Effect::Upvote },
        ActivityKind::Dislike => Handler {
            verify: VerifyRule::ObjectExists,
            apply: Effect::Downvote,
        },
        ActivityKind::Announce => Handler {
            verify: VerifyRule::ObjectExists,
            apply: Effect::AnnounceObject,
        },
    }
}

/// Looks an activity type up in the registry.
pub fn handler_for(kind: ActivityKind) -> (r: Handler)
    ensures
        r == handler_of(kind),
{
    match kind {
        ActivityKind::Follow => Handler {
            verify: VerifyRule::ObjectExists,
            apply: Effect::CreateFollow,
        },
        ActivityKind::Accept => Handler {
            verify: VerifyRule::AnswersFollow,
            apply: Effect::AcceptFollow,
        },
        ActivityKind::Undo => Handler {
            verify: VerifyRule::ObjectMutableByActor,
            apply: Effect::UndoPrevious,
        },
        ActivityKind::Create => Handler {
            verify: VerifyRule::ObjectExists,
            apply: Effect::CreateObject,
        },
        ActivityKind::Update => Handler {
            verify: VerifyRule::ObjectMutableByActor,
            apply: Effect::UpdateObject,
        },
        ActivityKind::Delete => Handler {
            verify: VerifyRule::ObjectMutableByActor,
            apply: Effect::SoftDelete,
        },
        ActivityKind::Like => Handler { verify: VerifyRule::ObjectExists, apply: Effect::Upvote },
        ActivityKind::Dislike => Handler {
            verify: VerifyRule::ObjectExists,
            apply: Effect::Downvote,
        },
        ActivityKind::Announce => Handler {
            verify: VerifyRule::ObjectExists,
            apply: Effect::AnnounceObject,
        },
    }
}

/// The activity type that a type tag names, if it has a handler.
pub open spec fn kind_of(tag: Seq<char>) -> Option<ActivityKind> {
    if tag == "Follow"@ {
        Some(ActivityKind::Follow)
    } else if tag == "Accept"@ {
        Some(ActivityKind::Accept)
    } else if tag == "Undo"@ {
        Some(ActivityKind::Undo)
    } else if tag == "Create"@ {
        Some(ActivityKind::Create)
    } else if tag == "Update"@ {
        Some(ActivityKind::Update)
    } else if tag == "Delete"@ {
        Some(ActivityKind::Delete)
    } else if tag == "Like"@ {
        Some(ActivityKind::Like)
    } else if tag == "Dislike"@ {
        Some(ActivityKind::Dislike)
    } else if tag == "Announce"@ {
        Some(ActivityKind::Announce)
    } else {
        None
    }
}

/// Reads an activity type from its tag. Tags are matched exactly.
pub fn kind_of_tag(tag: &str) -> (r: Option<ActivityKind>)
    ensures
        r == kind_of(tag@),
{
    if str_eq(tag, "Follow") {
        Some(ActivityKind::Follow)
    } else if str_eq(tag, "Accept") {
        Some(ActivityKind::Accept)
    } else if str_eq(tag, "Undo") {
        Some(ActivityKind::Undo)
    } else if str_eq(tag, "Create") {
        Some(ActivityKind::Create)
    } else if str_eq(tag, "Update") {
        Some(ActivityKind::Update)
    } else if str_eq(tag, "Delete") {
        Some(ActivityKind::Delete)
    } else if str_eq(tag, "Like") {
        Some(ActivityKind::Like)
    } else if str_eq(tag, "Dislike") {
        Some(ActivityKind::Dislike)
    } else if str_eq(tag, "Announce") {
        Some(ActivityKind::Announce)
    } else {
        None
    }
}

/// What an activity is about: a reference to an object, or an object
/// that came with it.
#[derive(Debug, Clone)]
pub enum ActivityObject {
    /// The URL of the object.
    Reference(String),
    /// The object itself, with its id and type tag and, where it is an
    /// activity in turn, that activity's actor and object.
    Embedded { id: String, kind: String, actor: Option<String>, object: Option<String> },
}

/// An activity as it arrives: id, type tag, actor and object.
#[derive(Debug, Clone)]
pub struct ActivityEnvelope {
    pub id: String,
    pub kind: String,
    pub actor: String,
    pub object: ActivityObject,
}

/// What the resolver and storage found out for one activity.
#[derive(Debug, Clone, Copy)]
pub struct ResolvedRefs {
    /// The object that the activity refers to, or the parent of a new
    /// object, exists.
    pub object_exists: bool,
    /// The actor is entitled to change the object.
    pub actor_may_modify: bool,
    /// This instance asked to follow the activity's actor on behalf of
    /// the actor of the embedded follow.
    pub follow_requested: bool,
}

/// The activity's object is an embedded follow addressed to `actor`.
pub open spec fn embeds_follow_of(object: ActivityObject, actor: Seq<char>) -> bool {
    match object {
        ActivityObject::Embedded { id, kind, actor: follower, object: followed } => {
            &&& kind@ == "Follow"@
            &&& followed is Some
            &&& followed->0@ == actor
        },
        ActivityObject::Reference(_) => false,
    }
}

/// Why an activity fails the check of its type, if it does. The object
/// has to exist for every type; then the rule of the type is asked.
pub open spec fn rule_failure(
    rule: VerifyRule,
    envelope: ActivityEnvelope,
    refs: ResolvedRefs,
) -> Option<Seq<char>> {
    match rule {
        VerifyRule::ObjectExists => if refs.object_exists {
            None
        } else {
            Some("object not found"@)
        },
        VerifyRule::ObjectMutableByActor => if !refs.object_exists {
            Some("object not found"@)
        } else if !refs.actor_may_modify {
            Some("actor may not change object"@)
        } else {
            None
        },
        VerifyRule::AnswersFollow => if !embeds_follow_of(envelope.object, envelope.actor@) {
            Some("Urls do not match"@)
        } else if !refs.follow_requested {
            Some("no follow was requested"@)
        } else {
            None
        },
    }
}

/// The outcome of the verify phase: the effect to apply, or the failure.
/// An unknown type tag is refused before anything else; then the actor
/// must be the signer; then the rule of the activity's type decides.
pub open spec fn verified(envelope: ActivityEnvelope, signer: Seq<char>, refs: ResolvedRefs) -> Result<
    Effect,
    FederationErrorView,
> {
    match kind_of(envelope.kind@) {
        None => Err(FederationErrorView::UnhandledActivityType),
        Some(kind) => if envelope.actor@ != signer {
            Err(FederationErrorView::VerificationFailed("actor does not match signer"@))
        } else {
            match rule_failure(handler_of(kind).verify, envelope, refs) {
                Some(reason) => Err(FederationErrorView::VerificationFailed(reason)),
                None => Ok(handler_of(kind).apply),
            }
        },
    }
}

/// The mathematical value of the outcome of the verify phase.
pub open spec fn effect_view(r: Result<Effect, FederationError>) -> Result<
    Effect,
    FederationErrorView,
> {
    match r {
        Ok(effect) => Ok(effect),
        Err(e) => Err(e@),
    }
}

fn failed(reason: &str) -> (r: FederationError)
    ensures
        r@ == FederationErrorView::VerificationFailed(reason@),
{
    FederationError::VerificationFailed(reason.to_owned())
}

fn is_follow_of(object: &ActivityObject, actor: &str) -> (r: bool)
    ensures
        r == embeds_follow_of(*object, actor@),
{
    match object {
        ActivityObject::Embedded { id: _, kind, actor: _, object: followed } => {
            match followed {
                Some(f) => str_eq(kind.as_str(), "Follow") && str_eq(f.as_str(), actor),
                None => false,
            }
        },
        ActivityObject::Reference(_) => false,
    }
}

/// The verify phase. It changes nothing: it reads the envelope and what
/// was resolved for it, and names the effect to apply or the failure.
pub fn verify(envelope: &ActivityEnvelope, signer: &str, refs: &ResolvedRefs) -> (r: Result<
    Effect,
    FederationError,
>)
    ensures
        effect_view(r) == verified(*envelope, signer@, *refs),
{
    let kind = match kind_of_tag(envelope.kind.as_str()) {
        Some(kind) => kind,
        None => {
            return Err(FederationError::UnhandledActivityType);
        },
    };
    if !str_eq(envelope.actor.as_str(), signer) {
        return Err(failed("actor does not match signer"));
    }
    let handler = handler_for(kind);
    match handler.verify {
        VerifyRule::ObjectExists => {
            if !refs.object_exists {
                return Err(failed("object not found"));
            }
        },
        VerifyRule::ObjectMutableByActor => {
            if !refs.object_exists {
                return Err(failed("object not found"));
            }
            if !refs.actor_may_modify {
                return Err(failed("actor may not change object"));
            }
        },
        VerifyRule::AnswersFollow => {
            if !is_follow_of(&envelope.object, envelope.actor.as_str()) {
                return Err(failed("Urls do not match"));
            }
            if !refs.follow_requested {
                return Err(failed("no follow was requested"));
            }
        },
    }
    Ok(handler.apply)
}

/// Both the activity's id and its actor pass the domain validator, the
/// id first.
pub open spec fn envelope_verdict(
    id_domain: Option<Seq<char>>,
    actor_domain: Option<Seq<char>>,
    is_strict: bool,
    local_instance: Seq<char>,
    policy: crate::policy::TrustPolicy,
) -> Result<(), FederationErrorView> {
    if strict_verdict(id_domain, is_strict, local_instance, policy) is Err {
        strict_verdict(id_domain, is_strict, local_instance, policy)
    } else {
        strict_verdict(actor_domain, is_strict, local_instance, policy)
    }
}

/// Judges the two domains of an activity that were already read from
/// its id and its actor.
pub fn validate_domains(
    id_domain: Option<&str>,
    actor_domain: Option<&str>,
    is_strict: bool,
    local_instance: &str,
    local_site_data: &LocalSiteData,
) -> (r: Result<(), FederationError>)
    ensures
        outcome_view(r) == envelope_verdict(
            match id_domain {
                Some(d) => Some(d@),
                None => None,
            },
            match actor_domain {
                Some(d) => Some(d@),
                None => None,
            },
            is_strict,
            local_instance@,
            local_site_data@,
        ),
{
    let id_check = check_domain_valid_with_strictness(
        id_domain,
        is_strict,
        local_instance,
        local_site_data,
    );
    if id_check.is_err() {
        return id_check;
    }
    check_domain_valid_with_strictness(actor_domain, is_strict, local_instance, local_site_data)
}

/// Validates the domains of an activity's id and of its actor. Nothing
/// may be done for an activity before this has passed.
pub fn validate_envelope(
    envelope: &ActivityEnvelope,
    is_strict: bool,
    local_instance: &str,
    local_site_data: &LocalSiteData,
) -> (r: Result<(), FederationError>)
    ensures
        outcome_view(r) == envelope_verdict(
            url_domain(envelope.id@),
            url_domain(envelope.actor@),
            is_strict,
            local_instance@,
            local_site_data@,
        ),
{
    let id_check = check_apub_id_valid_with_strictness(
        envelope.id.as_str(),
        is_strict,
        local_instance,
        local_site_data,
    );
    if id_check.is_err() {
        return id_check;
    }
    check_apub_id_valid_with_strictness(
        envelope.actor.as_str(),
        is_strict,
        local_instance,
        local_site_data,
    )
}

/// Where an inbound activity stands.
#[derive(Debug, Clone, Copy, PartialEq, Eq, Structural)]
pub enum DispatchState {
    /// It arrived and its transport signature was accepted.
    Received,
    /// The domains of its id and of its actor passed the validator.
    DomainValidated,
    /// The journal took its id as new.
    Deduplicated,
    /// Its actor was resolved.
    ActorResolved,
    /// The checks of its type passed.
    TypeVerified,
    /// Its effect was applied. Final.
    Applied,
    /// The journal knew its id: it was processed before. Final, and a success.
    AlreadyExists,
    /// A check failed. Final.
    Rejected,
}

/// What happened outside the dispatcher since its last step.
#[derive(Debug, Clone, Copy, PartialEq, Eq, Structural)]
pub enum DispatchEvent {
    /// The domain validator gave its verdict on id and actor.
    DomainsChecked(bool),
    /// The journal answered.
    Journal(JournalOutcome),
    /// The resolver hydrated the actor, or failed to.
    ActorResolved(bool),
    /// The verify phase named an effect, or failed.
    Verified(Option<Effect>),
    /// Storage carried the effect out.
    Applied,
}

/// What is to be done next for the activity.
#[derive(Debug, Clone, Copy, PartialEq, Eq, Structural)]
pub enum DispatchAction {
    /// Ask the journal to record the id.
    RecordInJournal,
    /// Ask the resolver for the actor.
    ResolveActor,
    /// Run the verify phase.
    Verify,
    /// Carry the effect out in storage.
    Apply(Effect),
    /// Report success to the sender.
    Finish,
    /// Drop the activity; the failed check is reported or logged.
    Abort,
    /// The event does not belong to the state; nothing is to be done.
    Ignore,
}

/// The state that follows `state` on `event`, and what is to be done.
/// An event that does not belong to the state changes nothing.
pub open spec fn next(state: DispatchState, event: DispatchEvent) -> (DispatchState, DispatchAction) {
    match (state, event) {
        (DispatchState::Received, DispatchEvent::DomainsChecked(true)) => (
            DispatchState::DomainValidated,
            DispatchAction::RecordInJournal,
        ),
        (DispatchState::Received, DispatchEvent::DomainsChecked(false)) => (
            DispatchState::Rejected,
            DispatchAction::Abort,
        ),
        (DispatchState::DomainValidated, DispatchEvent::Journal(JournalOutcome::Inserted)) => (
            DispatchState::Deduplicated,
            DispatchAction::ResolveActor,
        ),
        (DispatchState::DomainValidated, DispatchEvent::Journal(JournalOutcome::AlreadyExists)) => (
            DispatchState::AlreadyExists,
            DispatchAction::Finish,
        ),
        (DispatchState::Deduplicated, DispatchEvent::ActorResolved(true)) => (
            DispatchState::ActorResolved,
            DispatchAction::Verify,
        ),
        (DispatchState::Deduplicated, DispatchEvent::ActorResolved(false)) => (
            DispatchState::Rejected,
            DispatchAction::Abort,
        ),
        (DispatchState::ActorResolved, DispatchEvent::Verified(Some(effect))) => (
            DispatchState::TypeVerified,
            DispatchAction::Apply(effect),
        ),
        (DispatchState::ActorResolved, DispatchEvent::Verified(None)) => (
            DispatchState::Rejected,
            DispatchAction::Abort,
        ),
        (DispatchState::TypeVerified, DispatchEvent::Applied) => (
            DispatchState::Applied,
            DispatchAction::Finish,
        ),
        _ => (state, DispatchAction::Ignore),
    }
}

/// One step of the dispatcher.
pub fn step(state: DispatchState, event: DispatchEvent) -> (r: (DispatchState, DispatchAction))
    ensures
        r == next(state, event),
{
    match (state, event) {
        (DispatchState::Received, DispatchEvent::DomainsChecked(true)) => (
            DispatchState::DomainValidated,
            DispatchAction::RecordInJournal,
        ),
        (DispatchState::Received, DispatchEvent::DomainsChecked(false)) => (
            DispatchState::Rejected,
            DispatchAction::Abort,
        ),
        (DispatchState::DomainValidated, DispatchEvent::Journal(JournalOutcome::Inserted)) => (
            DispatchState::Deduplicated,
            DispatchAction::ResolveActor,
        ),
        (DispatchState::DomainValidated, DispatchEvent::Journal(JournalOutcome::AlreadyExists)) => (
            DispatchState::AlreadyExists,
            DispatchAction::Finish,
        ),
        (DispatchState::Deduplicated, DispatchEvent::ActorResolved(true)) => (
            DispatchState::ActorResolved,
            DispatchAction::Verify,
        ),
        (DispatchState::Deduplicated, DispatchEvent::ActorResolved(false)) => (
            DispatchState::Rejected,
            DispatchAction::Abort,
        ),
        (DispatchState::ActorResolved, DispatchEvent::Verified(Some(effect))) => (
            DispatchState::TypeVerified,
            DispatchAction::Apply(effect),
        ),
        (DispatchState::ActorResolved, DispatchEvent::Verified(None)) => (
            DispatchState::Rejected,
            DispatchAction::Abort,
        ),
        (DispatchState::TypeVerified, DispatchEvent::Applied) => (
            DispatchState::Applied,
            DispatchAction::Finish,
        ),
        _ => (state, DispatchAction::Ignore),
    }
}

/// Whether nothing more can happen to an activity in this state.
pub open spec fn is_final(state: DispatchState) -> bool {
    state == DispatchState::Applied || state == DispatchState::AlreadyExists || state
        == DispatchState::Rejected
}

/// Whether nothing more can happen to an activity in this state.
pub fn is_terminal(state: DispatchState) -> (r: bool)
    ensures
        r == is_final(state),
{
    match state {
        DispatchState::Applied | DispatchState::AlreadyExists | DispatchState::Rejected => true,
        _ => false,
    }
}

/// The state of an activity after a run of events, from its arrival on.
pub open spec fn state_after(events: Seq<DispatchEvent>) -> DispatchState
    decreases events.len(),
{
    if events.len() == 0 {
        DispatchState::Received
    } else {
        next(state_after(events.drop_last()), events.last()).0
    }
}

/// The state is one that only an activity with a new id reaches.
pub open spec fn past_dedup(state: DispatchState) -> bool {
    state == DispatchState::Deduplicated || state == DispatchState::ActorResolved || state
        == DispatchState::TypeVerified || state == DispatchState::Applied
}

/// An effect is applied only on the step that leaves the state
/// `ActorResolved` with a passed verification, and it is the effect that
/// the verification named.
pub proof fn lemma_apply_needs_verification(state: DispatchState, event: DispatchEvent)
    requires
        next(state, event).1 is Apply,
    ensures
        state == DispatchState::ActorResolved,
        event == DispatchEvent::Verified(Some(next(state, event).1->Apply_0)),
{
}

/// No activity gets past deduplication unless the validator passed its
/// domains and the journal took its id as new.
pub proof fn lemma_dedup_before_apply(events: Seq<DispatchEvent>)
    requires
        past_dedup(state_after(events)),
    ensures
        events.contains(DispatchEvent::DomainsChecked(true)),
        events.contains(DispatchEvent::Journal(JournalOutcome::Inserted)),
    decreases events.len(),
{
    if events.len() > 0 {
        let before = events.drop_last();
        let last = events.last();
        assert(events[events.len() - 1] == last);
        if past_dedup(state_after(before)) {
            lemma_dedup_before_apply(before);
            let i = choose|i: int| 0 <= i < before.len() && before[i] == DispatchEvent::DomainsChecked(true);
            assert(events[i] == before[i]);
            let j = choose|j: int|
                0 <= j < before.len() && before[j] == DispatchEvent::Journal(
                    JournalOutcome::Inserted,
                );
            assert(events[j] == before[j]);
        } else {
            assert(state_after(before) == DispatchState::DomainValidated);
            assert(last == DispatchEvent::Journal(JournalOutcome::Inserted));
            lemma_validated_before_journal(before);
            let i = choose|i: int| 0 <= i < before.len() && before[i] == DispatchEvent::DomainsChecked(true);
            assert(events[i] == before[i]);
        }
    }
}

/// No activity reaches the journal unless the validator passed its domains.
pub proof fn lemma_validated_before_journal(events: Seq<DispatchEvent>)
    requires
        state_after(events) == DispatchState::DomainValidated,
    ensures
        events.contains(DispatchEvent::DomainsChecked(true)),
    decreases events.len(),
{
    if events.len() > 0 {
        let before = events.drop_last();
        assert(events[events.len() - 1] == events.last());
        if state_after(before) == DispatchState::DomainValidated {
            lemma_validated_before_journal(before);
            let i = choose|i: int| 0 <= i < before.len() && before[i] == DispatchEvent::DomainsChecked(true);
            assert(events[i] == before[i]);
        }
    }
}

/// An activity whose id the journal already knows ends in
/// `AlreadyExists` without any effect being applied, and no later event
/// changes that or asks for anything to be done.
pub proof fn lemma_duplicate_has_no_effect(later: DispatchEvent)
    ensures
        next(
            DispatchState::DomainValidated,
            DispatchEvent::Journal(JournalOutcome::AlreadyExists),
        ) == (DispatchState::AlreadyExists, DispatchAction::Finish),
        next(DispatchState::AlreadyExists, later) == (
            DispatchState::AlreadyExists,
            DispatchAction::Ignore,
        ),
{
}

/// A final state is left by no event, and no event asks for anything in it.
pub proof fn lemma_final_states_absorb(state: DispatchState, event: DispatchEvent)
    requires
        is_final(state),
    ensures
        next(state, event) == (state, DispatchAction::Ignore),
{
}

/// How the intake of one activity ended.
#[derive(Debug, Clone)]
pub struct Ingested {
    /// `TypeVerified` where an effect is to be applied, `AlreadyExists`
    /// for a repeated delivery, `Rejected` where a check failed.
    pub state: DispatchState,
    /// The effect to carry out in storage, if any.
    pub effect: Option<Effect>,
    /// The check that failed, if any.
    pub error: Option<FederationError>,
}

/// The mathematical value of an intake: the ids on record afterwards and
/// how it ended.
pub struct IngestOutcome {
    pub ids: Seq<Seq<char>>,
    pub state: DispatchState,
    pub effect: Option<Effect>,
    pub error: Option<FederationErrorView>,
}

/// The intake of one activity once the verdict on its domains is
/// known. A failed domain check leaves the journal alone; a known id
/// ends the intake with nothing to apply; a new id is recorded, and then
/// the verify phase decides between an effect and a rejection.
pub open spec fn intake(
    ids: Seq<Seq<char>>,
    domains: Result<(), FederationErrorView>,
    envelope: ActivityEnvelope,
    signer: Seq<char>,
    refs: ResolvedRefs,
) -> IngestOutcome {
    if domains is Err {
        IngestOutcome {
            ids,
            state: DispatchState::Rejected,
            effect: None,
            error: Some(domains->Err_0),
        }
    } else if ids.contains(envelope.id@) {
        IngestOutcome { ids, state: DispatchState::AlreadyExists, effect: None, error: None }
    } else {
        match verified(envelope, signer, refs) {
            Ok(effect) => IngestOutcome {
                ids: ids.push(envelope.id@),
                state: DispatchState::TypeVerified,
                effect: Some(effect),
                error: None,
            },
            Err(e) => IngestOutcome {
                ids: ids.push(envelope.id@),
                state: DispatchState::Rejected,
                effect: None,
                error: Some(e),
            },
        }
    }
}

/// The intake of one activity, from the validator to the verify phase.
pub open spec fn ingest_outcome(
    ids: Seq<Seq<char>>,
    envelope: ActivityEnvelope,
    signer: Seq<char>,
    refs: ResolvedRefs,
    is_strict: bool,
    local_instance: Seq<char>,
    policy: crate::policy::TrustPolicy,
) -> IngestOutcome {
    intake(
        ids,
        envelope_verdict(
            url_domain(envelope.id@),
            url_domain(envelope.actor@),
            is_strict,
            local_instance,
            policy,
        ),
        envelope,
        signer,
        refs,
    )
}

/// The mathematical value of how an intake ended, with the ids on record
/// after it.
pub open spec fn ingested_view(ids: Seq<Seq<char>>, r: Ingested) -> IngestOutcome {
    IngestOutcome {
        ids,
        state: r.state,
        effect: r.effect,
        error: match r.error {
            Some(e) => Some(e@),
            None => None,
        },
    }
}

/// Takes one activity in after its domains were judged: records the id
/// and verifies. The journal changes only by the one entry for a new id,
/// made at the time `now`. The effect that is named is the only change to
/// make in storage; where none is named, nothing is to be changed.
pub fn ingest_checked(
    journal: &mut ActivityJournal,
    domains: Result<(), FederationError>,
    envelope: &ActivityEnvelope,
    signer: &str,
    refs: &ResolvedRefs,
    now: i64,
) -> (r: Ingested)
    requires
        old(journal).wf(),
    ensures
        final(journal).wf(),
        ingested_view(final(journal).ids(), r) == intake(
            old(journal).ids(),
            outcome_view(domains),
            *envelope,
            signer@,
            *refs,
        ),
        final(journal).ids() == old(journal).ids() ==> final(journal).entries() == old(journal).entries(),
        final(journal).ids() != old(journal).ids() ==> appended(
            old(journal).entries(),
            final(journal).entries(),
            envelope.id@,
            now,
        ),
{
    let (s1, _) = match domains {
        Ok(_) => step(DispatchState::Received, DispatchEvent::DomainsChecked(true)),
        Err(e) => {
            let (s, _) = step(DispatchState::Received, DispatchEvent::DomainsChecked(false));
            return Ingested { state: s, effect: None, error: Some(e) };
        },
    };
    let ghost before = journal.ids();
    let outcome = journal.record_if_new(envelope.id.as_str(), now);
    proof {
        if outcome == JournalOutcome::Inserted {
            assert(journal.ids().len() == before.len() + 1);
        }
    }
    let (s2, _) = step(s1, DispatchEvent::Journal(outcome));
    if is_terminal(s2) {
        return Ingested { state: s2, effect: None, error: None };
    }
    let (s3, _) = step(s2, DispatchEvent::ActorResolved(true));
    match verify(envelope, signer, refs) {
        Ok(effect) => {
            let (s4, _) = step(s3, DispatchEvent::Verified(Some(effect)));
            Ingested { state: s4, effect: Some(effect), error: None }
        },
        Err(e) => {
            let (s4, _) = step(s3, DispatchEvent::Verified(None));
            Ingested { state: s4, effect: None, error: Some(e) }
        },
    }
}

/// Takes one activity in, for a caller that has at hand what the
/// resolver found: validates the domains, records the id, and verifies.
pub fn ingest(
    journal: &mut ActivityJournal,
    envelope: &ActivityEnvelope,
    signer: &str,
    refs: &ResolvedRefs,
    is_strict: bool,
    local_instance: &str,
    local_site_data: &LocalSiteData,
    now: i64,
) -> (r: Ingested)
    requires
        old(journal).wf(),
    ensures
        final(journal).wf(),
        ingested_view(final(journal).ids(), r) == ingest_outcome(
            old(journal).ids(),
            *envelope,
            signer@,
            *refs,
            is_strict,
            local_instance@,
            local_site_data@,
        ),
        final(journal).ids() == old(journal).ids() ==> final(journal).entries() == old(journal).entries(),
        final(journal).ids() != old(journal).ids() ==> appended(
            old(journal).entries(),
            final(journal).entries(),
            envelope.id@,
            now,
        ),
{
    let domains = validate_envelope(envelope, is_strict, local_instance, local_site_data);
    ingest_checked(journal, domains, envelope, signer, refs, now)
}

/// Delivering again an activity whose effect was applied ends in
/// `AlreadyExists`, names no effect, and leaves the journal as it was,
/// whatever the second delivery resolved to, as long as its domains still
/// pass the validator.
pub proof fn lemma_redelivery_is_idempotent(
    ids: Seq<Seq<char>>,
    envelope: ActivityEnvelope,
    signer: Seq<char>,
    refs: ResolvedRefs,
    later_signer: Seq<char>,
    later_refs: ResolvedRefs,
    is_strict: bool,
    local_instance: Seq<char>,
    policy: crate::policy::TrustPolicy,
)
    requires
        ingest_outcome(
            ids,
            envelope,
            signer,
            refs,
            is_strict,
            local_instance,
            policy,
        ).state == DispatchState::TypeVerified,
    ensures
        ({
            let first = ingest_outcome(
                ids,
                envelope,
                signer,
                refs,
                is_strict,
                local_instance,
                policy,
            );
            let second = ingest_outcome(
                first.ids,
                envelope,
                later_signer,
                later_refs,
                is_strict,
                local_instance,
                policy,
            );
            &&& second.state == DispatchState::AlreadyExists
            &&& second.effect is None
            &&& second.error is None
            &&& second.ids == first.ids
        }),
{
    assert(ids.push(envelope.id@)[ids.len() as int] == envelope.id@);
}

/// Of two deliveries of one activity whose id is new and which passes
/// every check, exactly one names an effect: the one that the journal
/// serves first. The other ends in `AlreadyExists`.
pub proof fn lemma_one_delivery_applies(
    ids: Seq<Seq<char>>,
    envelope: ActivityEnvelope,
    signer: Seq<char>,
    refs: ResolvedRefs,
    is_strict: bool,
    local_instance: Seq<char>,
    policy: crate::policy::TrustPolicy,
)
    requires
        !ids.contains(envelope.id@),
        envelope_verdict(
            url_domain(envelope.id@),
            url_domain(envelope.actor@),
            is_strict,
            local_instance,
            policy,
        ) is Ok,
        verified(envelope, signer, refs) is Ok,
    ensures
        ({
            let first = ingest_outcome(
                ids,
                envelope,
                signer,
                refs,
                is_strict,
                local_instance,
                policy,
            );
            let second = ingest_outcome(
                first.ids,
                envelope,
                signer,
                refs,
                is_strict,
                local_instance,
                policy,
            );
            &&& first.state == DispatchState::TypeVerified
            &&& first.effect == Some(verified(envelope, signer, refs)->Ok_0)
            &&& second.state == DispatchState::AlreadyExists
            &&& second.effect is None
        }),
{
    assert(ids.push(envelope.id@)[ids.len() as int] == envelope.id@);
}

} // verus!
