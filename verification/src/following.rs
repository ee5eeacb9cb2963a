//! Follows and their acceptance. URLs are held in their normalised text
//! form, so that two URLs are the same exactly when their texts are.

use vstd::prelude::*;
use crate::delivery::{
    build_recipients, endpoints_of, outbound_requests, recipients_of, requests_for,
    DeliveryTarget,
};
use crate::dispatcher::{ActivityEnvelope, ActivityObject};
use crate::error::{outcome_view, FederationError, FederationErrorView};
use crate::policy::LocalSiteData;
use crate::text::{str_eq, texts_of};

verus! {

/// A request of `actor` to follow `object`.
#[derive(Debug, Clone)]
pub struct Follow {
    pub actor: String,
    pub object: String,
    pub id: String,
}

/// The answer of the followed actor to a follow: `actor` accepts `object`.
#[derive(Debug, Clone)]
pub struct AcceptFollow {
    pub actor: String,
    pub object: Follow,
    pub id: String,
}

/// An accept together with the inboxes that a request goes out to.
#[derive(Debug, Clone)]
pub struct AcceptDelivery {
    pub activity: AcceptFollow,
    pub inboxes: Vec<String>,
}

/// The follow edge that an accepted follow confirms.
#[derive(Debug, Clone)]
pub struct AcceptedFollow {
    pub community: String,
    pub person: String,
}

/// Two URLs match when their texts are the same.
pub fn verify_urls_match(a: &str, b: &str) -> (r: Result<(), FederationError>)
    ensures
        outcome_view(r) == (if a@ == b@ {
            Ok::<(), FederationErrorView>(())
        } else {
            Err(FederationErrorView::VerificationFailed("Urls do not match"@))
        }),
{
    if str_eq(a, b) {
        Ok(())
    } else {
        Err(FederationError::VerificationFailed("Urls do not match".to_owned()))
    }
}

impl AcceptFollow {
    /// Builds the accept that answers `follow` in the name of the
    /// followed actor, under the given activity id, and addresses it to
    /// the follower's inbox, provided the validator lets that pass and
    /// the inbox is not on the local instance.
    pub fn send(
        follow: Follow,
        followed_actor_id: String,
        activity_id: String,
        follower: DeliveryTarget,
        local_instance: &str,
        local_site_data: &LocalSiteData,
    ) -> (r: AcceptDelivery)
        ensures
            r.activity.actor == followed_actor_id,
            r.activity.object == follow,
            r.activity.id == activity_id,
            texts_of(r.inboxes@) == requests_for(
                recipients_of(
                    seq![follower.endpoint()],
                    Seq::empty(),
                    false,
                    local_instance@,
                    local_site_data@,
                ),
                local_instance@,
            ),
    {
        let accept = AcceptFollow { actor: followed_actor_id, object: follow, id: activity_id };
        let mut explicit: Vec<DeliveryTarget> = Vec::new();
        explicit.push(follower);
        let none: Vec<DeliveryTarget> = Vec::new();
        assert(endpoints_of(explicit@) =~= seq![follower.endpoint()]);
        assert(endpoints_of(none@) =~= Seq::<Seq<char>>::empty());
        let recipients = build_recipients(&explicit, &none, false, local_instance, local_site_data);
        let inboxes = outbound_requests(&recipients, local_instance);
        AcceptDelivery { activity: accept, inboxes }
    }

    /// The id of the activity.
    pub fn id(&self) -> (r: &str)
        ensures
            r@ == self.id@,
    {
        self.id.as_str()
    }

    /// The actor that accepts.
    pub fn actor(&self) -> (r: &str)
        ensures
            r@ == self.actor@,
    {
        self.actor.as_str()
    }

    /// Checks that the accept comes from the actor that the follow was
    /// addressed to.
    pub fn verify(&self) -> (r: Result<(), FederationError>)
        ensures
            outcome_view(r) == (if self.actor@ == self.object.object@ {
                Ok::<(), FederationErrorView>(())
            } else {
                Err(FederationErrorView::VerificationFailed("Urls do not match"@))
            }),
    {
        verify_urls_match(self.actor.as_str(), self.object.object.as_str())
    }

    /// The follow edge to mark as accepted: the accepting actor is the
    /// community, the actor of the follow is the person.
    pub fn receive(self) -> (r: AcceptedFollow)
        ensures
            r.community == self.actor,
            r.person == self.object.actor,
    {
        AcceptedFollow { community: self.actor, person: self.object.actor }
    }

    /// The accept as the dispatcher takes it in.
    pub fn to_envelope(&self) -> (r: ActivityEnvelope)
        ensures
            r.id@ == self.id@,
            r.kind@ == "Accept"@,
            r.actor@ == self.actor@,
            r.object matches ActivityObject::Embedded { id, kind, actor, object } && id@
                == self.object.id@ && kind@ == "Follow"@ && actor is Some && actor->0@
                == self.object.actor@ && object is Some && object->0@ == self.object.object@,
    {
        ActivityEnvelope {
            id: self.id.clone(),
            kind: "Accept".to_owned(),
            actor: self.actor.clone(),
            object: ActivityObject::Embedded {
                id: self.object.id.clone(),
                kind: "Follow".to_owned(),
                actor: Some(self.object.actor.clone()),
                object: Some(self.object.object.clone()),
            },
        }
    }
}

impl Follow {
    /// The follow as the dispatcher takes it in.
    pub fn to_envelope(&self) -> (r: ActivityEnvelope)
        ensures
            r.id@ == self.id@,
            r.kind@ == "Follow"@,
            r.actor@ == self.actor@,
            r.object matches ActivityObject::Reference(url) && url@ == self.object@,
    {
        ActivityEnvelope {
            id: self.id.clone(),
            kind: "Follow".to_owned(),
            actor: self.actor.clone(),
            object: ActivityObject::Reference(self.object.clone()),
        }
    }
}

} // verus!
