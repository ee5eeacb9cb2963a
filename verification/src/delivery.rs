//! The delivery service's decisions: who receives an outbound activity,
//! and what follows each attempt to reach one recipient.

use vstd::prelude::*;
use crate::error::{FederationError, FederationErrorView};
use crate::policy::{LocalSiteData, TrustPolicy};
use crate::text::{contains_text, texts_of};
use crate::validator::{
    check_apub_id_valid_with_strictness, domain_of_url, is_local, is_local_domain, strict_verdict,
    url_domain,
};

verus! {

/// Where an actor receives activities: its own inbox and, where its
/// instance offers one, the inbox that all actors of the instance share.
#[derive(Debug, Clone)]
pub struct DeliveryTarget {
    pub inbox: String,
    pub shared_inbox: Option<String>,
}

impl DeliveryTarget {
    /// The endpoint that is addressed: the shared inbox where there is
    /// one, the actor's own inbox otherwise.
    pub open spec fn endpoint(&self) -> Seq<char> {
        match self.shared_inbox {
            Some(shared) => shared@,
            None => self.inbox@,
        }
    }

    /// The endpoint that is addressed for this actor.
    pub fn shared_inbox_or_inbox(&self) -> (r: &str)
        ensures
            r@ == self.endpoint(),
    {
        match &self.shared_inbox {
            Some(shared) => shared.as_str(),
            None => self.inbox.as_str(),
        }
    }
}

/// The endpoints of a list of targets, in order.
pub open spec fn endpoints_of(targets: Seq<DeliveryTarget>) -> Seq<Seq<char>> {
    Seq::new(targets.len(), |i: int| targets[i].endpoint())
}

/// An endpoint may be sent to when its domain passes the validator.
pub open spec fn permitted(endpoint: Seq<char>, local_instance: Seq<char>, policy: TrustPolicy) -> bool {
    strict_verdict(url_domain(endpoint), false, local_instance, policy) is Ok
}

/// The endpoints gathered so far, extended by those of `candidates`
/// that may be sent to and are not gathered yet, in their order.
pub open spec fn gathered(
    so_far: Seq<Seq<char>>,
    candidates: Seq<Seq<char>>,
    local_instance: Seq<char>,
    policy: TrustPolicy,
) -> Seq<Seq<char>>
    decreases candidates.len(),
{
    if candidates.len() == 0 {
        so_far
    } else {
        let first = candidates[0];
        let next = with_candidate(so_far, first, permitted(first, local_instance, policy));
        gathered(next, candidates.drop_first(), local_instance, policy)
    }
}

/// The endpoints that an activity goes to: the explicit recipients,
/// then the followers where the activity addresses them; without those
/// that the validator refuses, and each endpoint once.
pub open spec fn recipients_of(
    explicit: Seq<Seq<char>>,
    followers: Seq<Seq<char>>,
    to_followers: bool,
    local_instance: Seq<char>,
    policy: TrustPolicy,
) -> Seq<Seq<char>> {
    let first = gathered(Seq::empty(), explicit, local_instance, policy);
    if to_followers {
        gathered(first, followers, local_instance, policy)
    } else {
        first
    }
}

/// The endpoints gathered so far after one more candidate was looked
/// at: it is added if it may be sent to and is not gathered yet.
pub open spec fn with_candidate(so_far: Seq<Seq<char>>, endpoint: Seq<char>, allowed: bool) -> Seq<
    Seq<char>,
> {
    if allowed && !so_far.contains(endpoint) {
        so_far.push(endpoint)
    } else {
        so_far
    }
}

/// Adds an endpoint to the recipients unless the validator refused it
/// or it is among them already.
pub fn add_recipient(out: &mut Vec<String>, endpoint: &str, allowed: bool)
    ensures
        texts_of(final(out)@) == with_candidate(texts_of(old(out)@), endpoint@, allowed),
{
    let ghost before = texts_of(out@);
    if allowed && !contains_text(out, endpoint) {
        out.push(endpoint.to_owned());
        assert(texts_of(out@) =~= before.push(endpoint@));
    }
}

fn gather(
    out: &mut Vec<String>,
    targets: &Vec<DeliveryTarget>,
    local_instance: &str,
    local_site_data: &LocalSiteData,
)
    ensures
        texts_of(final(out)@) == gathered(
            texts_of(old(out)@),
            endpoints_of(targets@),
            local_instance@,
            local_site_data@,
        ),
{
    let ghost all = endpoints_of(targets@);
    let ghost start = texts_of(out@);
    let mut i: usize = 0;
    assert(all.skip(0) =~= all);
    while i < targets.len()
        invariant
            i <= targets.len(),
            all == endpoints_of(targets@),
            gathered(texts_of(out@), all.skip(i as int), local_instance@, local_site_data@)
                == gathered(start, all, local_instance@, local_site_data@),
        decreases targets.len() - i,
    {
        let endpoint = targets[i].shared_inbox_or_inbox();
        let ghost before = texts_of(out@);
        let ghost rest = all.skip(i as int);
        assert(rest[0] == endpoint@);
        assert(rest.drop_first() =~= all.skip(i as int + 1));
        let allowed = check_apub_id_valid_with_strictness(
            endpoint,
            false,
            local_instance,
            local_site_data,
        ).is_ok();
        add_recipient(out, endpoint, allowed);
        i += 1;
    }
    assert(all.skip(targets.len() as int) =~= Seq::<Seq<char>>::empty());
}

/// Builds the set of inboxes for one outbound activity. Recipients that
/// share an inbox are addressed once, and no endpoint is kept that the
/// domain validator refuses.
pub fn build_recipients(
    explicit: &Vec<DeliveryTarget>,
    followers: &Vec<DeliveryTarget>,
    to_followers: bool,
    local_instance: &str,
    local_site_data: &LocalSiteData,
) -> (r: Vec<String>)
    ensures
        texts_of(r@) == recipients_of(
            endpoints_of(explicit@),
            endpoints_of(followers@),
            to_followers,
            local_instance@,
            local_site_data@,
        ),
{
    let mut out: Vec<String> = Vec::new();
    assert(texts_of(out@) =~= Seq::<Seq<char>>::empty());
    gather(&mut out, explicit, local_instance, local_site_data);
    if to_followers {
        gather(&mut out, followers, local_instance, local_site_data);
    }
    out
}

/// Gathering adds only candidates that may be sent to, adds every such
/// candidate, and never adds an endpoint twice.
pub proof fn lemma_gathered(
    so_far: Seq<Seq<char>>,
    candidates: Seq<Seq<char>>,
    local_instance: Seq<char>,
    policy: TrustPolicy,
)
    ensures
        so_far.no_duplicates() ==> gathered(
            so_far,
            candidates,
            local_instance,
            policy,
        ).no_duplicates(),
        forall|x: Seq<char>|
            #[trigger] gathered(so_far, candidates, local_instance, policy).contains(x)
                <==> so_far.contains(x) || (candidates.contains(x) && permitted(
                x,
                local_instance,
                policy,
            )),
    decreases candidates.len(),
{
    let result = gathered(so_far, candidates, local_instance, policy);
    if candidates.len() > 0 {
        let first = candidates[0];
        let next = if permitted(first, local_instance, policy) && !so_far.contains(first) {
            so_far.push(first)
        } else {
            so_far
        };
        let rest = candidates.drop_first();
        lemma_gathered(next, rest, local_instance, policy);
        if so_far.no_duplicates() {
            assert(next.no_duplicates());
        }
        assert forall|x: Seq<char>|
            result.contains(x) <==> so_far.contains(x) || (candidates.contains(x) && permitted(
                x,
                local_instance,
                policy,
            )) by {
            if next.contains(x) && !so_far.contains(x) {
                let k = choose|k: int| 0 <= k < next.len() && next[k] == x;
                assert(x == first);
                assert(candidates[0] == x);
            }
            if so_far.contains(x) {
                let k = choose|k: int| 0 <= k < so_far.len() && so_far[k] == x;
                assert(next[k] == x);
            }
            if rest.contains(x) {
                let k = choose|k: int| 0 <= k < rest.len() && rest[k] == x;
                assert(candidates[k + 1] == x);
            }
            if candidates.contains(x) {
                let k = choose|k: int| 0 <= k < candidates.len() && candidates[k] == x;
                if k == 0 {
                    if permitted(x, local_instance, policy) && !so_far.contains(x) {
                        assert(next[so_far.len() as int] == x);
                    }
                } else {
                    assert(rest[k - 1] == x);
                }
            }
        }
    }
}

/// No endpoint is addressed twice, whoever shares it; an endpoint is
/// addressed exactly when some recipient has it and the validator lets
/// it pass.
pub proof fn lemma_recipients(
    explicit: Seq<Seq<char>>,
    followers: Seq<Seq<char>>,
    to_followers: bool,
    local_instance: Seq<char>,
    policy: TrustPolicy,
)
    ensures
        recipients_of(explicit, followers, to_followers, local_instance, policy).no_duplicates(),
        forall|x: Seq<char>|
            #[trigger] recipients_of(
                explicit,
                followers,
                to_followers,
                local_instance,
                policy,
            ).contains(x) <==> permitted(x, local_instance, policy) && (explicit.contains(x) || (
            to_followers && followers.contains(x))),
{
    let empty = Seq::<Seq<char>>::empty();
    let first = gathered(empty, explicit, local_instance, policy);
    let both = gathered(first, followers, local_instance, policy);
    let result = recipients_of(explicit, followers, to_followers, local_instance, policy);
    lemma_gathered(empty, explicit, local_instance, policy);
    lemma_gathered(first, followers, local_instance, policy);
    assert forall|x: Seq<char>|
        result.contains(x) <==> permitted(x, local_instance, policy) && (explicit.contains(x) || (
        to_followers && followers.contains(x))) by {
        assert(!empty.contains(x));
        assert(first.contains(x) <==> empty.contains(x) || (explicit.contains(x) && permitted(
            x,
            local_instance,
            policy,
        )));
        assert(both.contains(x) <==> first.contains(x) || (followers.contains(x) && permitted(
            x,
            local_instance,
            policy,
        )));
    }
}

/// An endpoint on the local instance: it is served at home, and no
/// request goes out for it.
pub open spec fn is_local_endpoint(endpoint: Seq<char>, local_instance: Seq<char>) -> bool {
    url_domain(endpoint) is Some && is_local_domain(url_domain(endpoint)->0, local_instance)
}

/// The recipients that a request goes out to: those that are not on the
/// local instance, in their order.
pub open spec fn requests_for(recipients: Seq<Seq<char>>, local_instance: Seq<char>) -> Seq<
    Seq<char>,
>
    decreases recipients.len(),
{
    if recipients.len() == 0 {
        Seq::empty()
    } else if is_local_endpoint(recipients.last(), local_instance) {
        requests_for(recipients.drop_last(), local_instance)
    } else {
        requests_for(recipients.drop_last(), local_instance).push(recipients.last())
    }
}

/// Whether an endpoint whose domain was already read from it is on the
/// local instance.
pub fn is_local_inbox(domain: Option<&str>, local_instance: &str) -> (r: bool)
    ensures
        r == (domain matches Some(d) && is_local_domain(d@, local_instance@)),
{
    match domain {
        Some(d) => is_local(d, local_instance),
        None => false,
    }
}

/// Picks the recipients that a request goes out to: every recipient
/// that is not on the local instance.
pub fn outbound_requests(recipients: &Vec<String>, local_instance: &str) -> (r: Vec<String>)
    ensures
        texts_of(r@) == requests_for(texts_of(recipients@), local_instance@),
{
    let mut out: Vec<String> = Vec::new();
    let mut i: usize = 0;
    let ghost all = texts_of(recipients@);
    assert(all.take(0) =~= Seq::<Seq<char>>::empty());
    assert(texts_of(out@) =~= requests_for(all.take(0), local_instance@));
    while i < recipients.len()
        invariant
            i <= recipients.len(),
            all == texts_of(recipients@),
            texts_of(out@) == requests_for(all.take(i as int), local_instance@),
        decreases recipients.len() - i,
    {
        let ghost shown = texts_of(out@);
        assert(all.take(i as int + 1).drop_last() =~= all.take(i as int));
        assert(all.take(i as int + 1).last() == recipients@[i as int]@);
        let domain = domain_of_url(recipients[i].as_str());
        let local = match &domain {
            Some(d) => is_local_inbox(Some(d.as_str()), local_instance),
            None => is_local_inbox(None, local_instance),
        };
        if !local {
            out.push(recipients[i].clone());
            assert(texts_of(out@) =~= shown.push(recipients@[i as int]@));
        }
        i += 1;
    }
    assert(all.take(recipients.len() as int) =~= all);
    out
}

/// A request goes out to exactly the recipients that are not on the
/// local instance, and to none of them twice if none is a recipient twice.
pub proof fn lemma_requests(recipients: Seq<Seq<char>>, local_instance: Seq<char>)
    ensures
        forall|x: Seq<char>|
            #[trigger] requests_for(recipients, local_instance).contains(x)
                <==> recipients.contains(x) && !is_local_endpoint(x, local_instance),
        recipients.no_duplicates() ==> requests_for(recipients, local_instance).no_duplicates(),
    decreases recipients.len(),
{
    let result = requests_for(recipients, local_instance);
    if recipients.len() > 0 {
        let before = recipients.drop_last();
        let last = recipients.last();
        let kept = requests_for(before, local_instance);
        let keep_last = !is_local_endpoint(last, local_instance);
        lemma_requests(before, local_instance);
        assert(recipients[recipients.len() - 1] == last);
        assert forall|x: Seq<char>| before.contains(x) implies recipients.contains(x) by {
            let k = choose|k: int| 0 <= k < before.len() && before[k] == x;
            assert(recipients[k] == x);
        }
        assert forall|x: Seq<char>| recipients.contains(x) implies before.contains(x) || x
            == last by {
            let k = choose|k: int| 0 <= k < recipients.len() && recipients[k] == x;
            if k < before.len() {
                assert(before[k] == x);
            }
        }
        assert forall|x: Seq<char>|
            #[trigger] result.contains(x) <==> recipients.contains(x) && !is_local_endpoint(
                x,
                local_instance,
            ) by {
            if keep_last {
                if kept.contains(x) {
                    let k = choose|k: int| 0 <= k < kept.len() && kept[k] == x;
                    assert(result[k] == x);
                }
                if x == last {
                    assert(result[kept.len() as int] == x);
                }
                if result.contains(x) {
                    let k = choose|k: int| 0 <= k < result.len() && result[k] == x;
                    if k < kept.len() {
                        assert(kept[k] == x);
                    }
                }
            }
        }
        if recipients.no_duplicates() && keep_last {
            assert(!before.contains(last)) by {
                if before.contains(last) {
                    let k = choose|k: int| 0 <= k < before.len() && before[k] == last;
                    assert(recipients[k] == recipients[recipients.len() - 1]);
                }
            }
            assert forall|a: int, b: int|
                0 <= a < result.len() && 0 <= b < result.len() && a != b implies result[a]
                != result[b] by {
                if a < kept.len() && b < kept.len() {
                } else if a < kept.len() {
                    assert(kept.contains(kept[a]));
                } else {
                    assert(kept.contains(kept[b]));
                }
            }
        }
    }
}

/// With federation switched off, every recipient that is left is on the
/// local instance, and no request goes out at all.
pub proof fn lemma_disabled_sends_nothing(
    explicit: Seq<Seq<char>>,
    followers: Seq<Seq<char>>,
    to_followers: bool,
    local_instance: Seq<char>,
    policy: TrustPolicy,
)
    requires
        !policy.federation_enabled,
    ensures
        forall|x: Seq<char>|
            recipients_of(explicit, followers, to_followers, local_instance, policy).contains(x)
                ==> is_local_endpoint(x, local_instance),
        requests_for(
            recipients_of(explicit, followers, to_followers, local_instance, policy),
            local_instance,
        ).len() == 0,
{
    lemma_recipients(explicit, followers, to_followers, local_instance, policy);
    let r = recipients_of(explicit, followers, to_followers, local_instance, policy);
    assert forall|x: Seq<char>| r.contains(x) implies is_local_endpoint(x, local_instance) by {
        assert(permitted(x, local_instance, policy));
    }
    lemma_requests(r, local_instance);
    let out = requests_for(r, local_instance);
    if out.len() > 0 {
        assert(out.contains(out[0]));
    }
}

/// No request goes out twice to one endpoint, whoever shares it, and
/// none to an endpoint that the validator refuses.
pub proof fn lemma_one_request_for_each_endpoint(
    explicit: Seq<Seq<char>>,
    followers: Seq<Seq<char>>,
    to_followers: bool,
    local_instance: Seq<char>,
    policy: TrustPolicy,
)
    ensures
        requests_for(
            recipients_of(explicit, followers, to_followers, local_instance, policy),
            local_instance,
        ).no_duplicates(),
        forall|x: Seq<char>|
            #[trigger] requests_for(
                recipients_of(explicit, followers, to_followers, local_instance, policy),
                local_instance,
            ).contains(x) ==> permitted(x, local_instance, policy),
{
    lemma_recipients(explicit, followers, to_followers, local_instance, policy);
    lemma_requests(
        recipients_of(explicit, followers, to_followers, local_instance, policy),
        local_instance,
    );
}

/// How often delivery to one recipient is tried before it is given up.
pub const DELIVERY_MAX_ATTEMPTS: u32 = 4;

/// The base of the waits between attempts, in seconds: one minute after
/// the first failure, one hour after the second, sixty hours after the
/// third.
pub const DELIVERY_BACKOFF_SECS: u64 = 60;

/// Seconds after which one request is abandoned.
pub const REQWEST_TIMEOUT_SECS: u64 = 10;

/// What follows an attempt to reach one recipient.
#[derive(Debug, Clone, Copy, PartialEq, Eq, Structural)]
pub enum DeliveryStep {
    /// The recipient took the activity.
    Delivered,
    /// Try again after this many seconds.
    RetryAfter(u64),
}

/// The wait in seconds after the given number of failed attempts: the
/// base to the power of that number, and never more than a `u64` holds.
pub open spec fn backoff_secs(failed_attempts: nat) -> nat
    decreases failed_attempts,
{
    if failed_attempts == 0 {
        1
    } else if DELIVERY_BACKOFF_SECS * backoff_secs((failed_attempts - 1) as nat) > u64::MAX {
        u64::MAX as nat
    } else {
        (DELIVERY_BACKOFF_SECS * backoff_secs((failed_attempts - 1) as nat)) as nat
    }
}

/// Computes the wait after the given number of failed attempts.
pub fn backoff(failed_attempts: u32) -> (r: u64)
    ensures
        r == backoff_secs(failed_attempts as nat),
{
    let mut delay: u64 = 1;
    let mut n: u32 = 0;
    while n < failed_attempts
        invariant
            n <= failed_attempts,
            delay == backoff_secs(n as nat),
        decreases failed_attempts - n,
    {
        delay = match delay.checked_mul(DELIVERY_BACKOFF_SECS) {
            Some(d) => d,
            None => u64::MAX,
        };
        n += 1;
    }
    delay
}

/// What follows after `attempts_made` attempts, the last of which
/// succeeded or not: a success ends the delivery; a failure is retried
/// after the backoff, until the ceiling of attempts is reached.
pub open spec fn attempt_outcome(recipient: Seq<char>, attempts_made: nat, succeeded: bool) -> Result<
    DeliveryStep,
    FederationErrorView,
> {
    if succeeded {
        Ok(DeliveryStep::Delivered)
    } else if attempts_made >= DELIVERY_MAX_ATTEMPTS {
        Err(FederationErrorView::DeliveryFailed(recipient, attempts_made))
    } else {
        Ok(DeliveryStep::RetryAfter(backoff_secs(attempts_made) as u64))
    }
}

/// Decides what follows one attempt to reach `recipient`. The decision
/// reads nothing but this recipient's own count of attempts, so no
/// recipient waits for or fails with another. A delivery that is given
/// up is reported as an error value for the record.
pub fn after_attempt(recipient: &str, attempts_made: u32, succeeded: bool) -> (r: Result<
    DeliveryStep,
    FederationError,
>)
    ensures
        (match r {
            Ok(step) => Ok(step),
            Err(e) => Err(e@),
        }) == attempt_outcome(recipient@, attempts_made as nat, succeeded),
{
    if succeeded {
        Ok(DeliveryStep::Delivered)
    } else if attempts_made >= DELIVERY_MAX_ATTEMPTS {
        Err(FederationError::DeliveryFailed(recipient.to_owned(), attempts_made))
    } else {
        Ok(DeliveryStep::RetryAfter(backoff(attempts_made)))
    }
}

/// A recipient that never answers is tried exactly as often as the
/// ceiling says: every failure before the ceiling asks for a retry, and
/// the failure at the ceiling ends the delivery.
pub proof fn lemma_retries_end_at_ceiling(recipient: Seq<char>, attempts_made: nat)
    ensures
        attempt_outcome(recipient, attempts_made, false) is Err <==> attempts_made
            >= DELIVERY_MAX_ATTEMPTS,
        attempt_outcome(recipient, attempts_made, true) == Ok::<_, FederationErrorView>(
            DeliveryStep::Delivered,
        ),
{
}

} // verus!
