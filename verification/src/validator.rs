//! The domain validator: decides from a URL and a policy snapshot whether
//! an exchange with the URL's instance is permitted.

use vstd::prelude::*;
use crate::error::{outcome_view, FederationError, FederationErrorView};
use crate::policy::{domains_of, Instance, LocalSiteData, TrustPolicy};
use crate::text::{
    debug_quoted, debug_text, eq_ignore_case, lowercase_of, same_ignoring_case, to_lowercase,
};

verus! {

/// The domain of a URL text, as `url::Url::domain` reports it after
/// `url::Url::parse`; `None` where the text does not parse or its host is
/// not a domain name.
pub uninterp spec fn url_domain(text: Seq<char>) -> Option<Seq<char>>;

/// Parses `text` with `url::Url::parse` and asks `url::Url::domain` for
/// the domain. The result is a function of the text alone; the contract
/// names it and says no more.
#[verifier::external_body]
pub(crate) fn domain_of_url(text: &str) -> (r: Option<String>)
    ensures
        (match r {
            Some(d) => Some(d@),
            None => None,
        }) == url_domain(text@),
{
    match url::Url::parse(text) {
        Ok(parsed) => parsed.domain().map(|d| d.to_string()),
        Err(_) => None,
    }
}

/// Some entry of the list equals the domain up to letter case.
pub open spec fn listed_ignoring_case(list: Seq<Seq<char>>, domain: Seq<char>) -> bool {
    exists|i: int| 0 <= i < list.len() && same_ignoring_case(#[trigger] list[i], domain)
}

/// The verdict of the lists once it is known whether the domain is on
/// them: a missing domain is refused first, then everything while
/// federation is off, then a blocked domain, then one that an allow list
/// in force does not hold.
pub open spec fn listing_verdict(
    domain: Option<Seq<char>>,
    federation_enabled: bool,
    on_block_list: bool,
    allow_list_in_force: bool,
    on_allow_list: bool,
) -> Result<(), FederationErrorView> {
    match domain {
        None => Err(FederationErrorView::UrlWithoutDomain),
        Some(d) => if !federation_enabled {
            Err(FederationErrorView::FederationDisabled)
        } else if on_block_list {
            Err(FederationErrorView::DomainBlocked(d))
        } else if allow_list_in_force && !on_allow_list {
            Err(FederationErrorView::DomainNotInAllowList(d))
        } else {
            Ok(())
        },
    }
}

/// The verdict on a domain under the federation switch and the two
/// lists, on which a domain is looked up without regard to letter case.
pub open spec fn domain_verdict(domain: Option<Seq<char>>, policy: TrustPolicy) -> Result<
    (),
    FederationErrorView,
> {
    listing_verdict(
        domain,
        policy.federation_enabled,
        domain is Some && listed_ignoring_case(policy.blocked, domain->0),
        policy.allowed.len() > 0,
        domain is Some && listed_ignoring_case(policy.allowed, domain->0),
    )
}

/// The domain is that of the local instance, in whatever letter case
/// either is written.
pub open spec fn is_local_domain(domain: Seq<char>, local_instance: Seq<char>) -> bool {
    same_ignoring_case(domain, local_instance)
}

/// The verdict with the local instance exempt, once it is known whether
/// the domain is local, what the lists say, and whether the domain is
/// among the allowed instances and the local one.
pub open spec fn strict_listing_verdict(
    domain: Option<Seq<char>>,
    is_local: bool,
    listing: Result<(), FederationErrorView>,
    strict_in_force: bool,
    allowed_or_local: bool,
) -> Result<(), FederationErrorView> {
    if domain is None {
        Err(FederationErrorView::UrlWithoutDomain)
    } else if is_local {
        Ok(())
    } else if listing is Err {
        listing
    } else if strict_in_force && !allowed_or_local {
        Err(FederationErrorView::FederationDisabledByStrictAllowList)
    } else {
        Ok(())
    }
}

/// The verdict with the local instance exempt: it passes at once, any
/// other domain goes through the lists, and a strict check then asks,
/// where an allow list is in force, for the domain to be among the
/// allowed instances and the local one. Every comparison of domains
/// ignores letter case.
pub open spec fn strict_verdict(
    domain: Option<Seq<char>>,
    is_strict: bool,
    local_instance: Seq<char>,
    policy: TrustPolicy,
) -> Result<(), FederationErrorView> {
    strict_listing_verdict(
        domain,
        domain is Some && is_local_domain(domain->0, local_instance),
        domain_verdict(domain, policy),
        is_strict && policy.allowed.len() > 0,
        domain is Some && (listed_ignoring_case(policy.allowed, domain->0) || is_local_domain(
            domain->0,
            local_instance,
        )),
    )
}

/// Whether some instance of the list has the domain, letter case aside.
pub fn any_domain_matches(list: &Vec<Instance>, domain: &str) -> (r: bool)
    ensures
        r == listed_ignoring_case(domains_of(list@), domain@),
{
    let wanted = to_lowercase(domain);
    let mut i: usize = 0;
    while i < list.len()
        invariant
            i <= list.len(),
            wanted@ == lowercase_of(domain@),
            forall|k: int| 0 <= k < i ==> !same_ignoring_case(#[trigger] domains_of(list@)[k], domain@),
        decreases list.len() - i,
    {
        let entry = to_lowercase(list[i].domain.as_str());
        if entry == wanted {
            assert(same_ignoring_case(domains_of(list@)[i as int], domain@));
            return true;
        }
        i += 1;
    }
    false
}

/// Decides on a domain from what the lists say of it.
pub fn decide_domain(
    domain: Option<&str>,
    federation_enabled: bool,
    on_block_list: bool,
    allow_list_in_force: bool,
    on_allow_list: bool,
) -> (r: Result<(), FederationError>)
    ensures
        outcome_view(r) == listing_verdict(
            match domain {
                Some(d) => Some(d@),
                None => None,
            },
            federation_enabled,
            on_block_list,
            allow_list_in_force,
            on_allow_list,
        ),
{
    let d = match domain {
        Some(d) => d,
        None => {
            return Err(FederationError::UrlWithoutDomain);
        },
    };
    if !federation_enabled {
        return Err(FederationError::FederationDisabled);
    }
    if on_block_list {
        return Err(FederationError::DomainBlocked(d.to_owned()));
    }
    if allow_list_in_force && !on_allow_list {
        return Err(FederationError::DomainNotInAllowList(d.to_owned()));
    }
    Ok(())
}

/// Decides on a domain from the verdict of the lists, letting the local
/// instance pass and applying the strict rule where it is in force.
pub fn decide_strict(
    domain: Option<&str>,
    is_local: bool,
    listing: Result<(), FederationError>,
    strict_in_force: bool,
    allowed_or_local: bool,
) -> (r: Result<(), FederationError>)
    ensures
        outcome_view(r) == strict_listing_verdict(
            match domain {
                Some(d) => Some(d@),
                None => None,
            },
            is_local,
            outcome_view(listing),
            strict_in_force,
            allowed_or_local,
        ),
{
    if domain.is_none() {
        return Err(FederationError::UrlWithoutDomain);
    }
    if is_local {
        return Ok(());
    }
    if listing.is_err() {
        return listing;
    }
    if strict_in_force && !allowed_or_local {
        return Err(FederationError::FederationDisabledByStrictAllowList);
    }
    Ok(())
}

/// Judges a domain that was already read from a URL, or its absence,
/// under the federation switch, the block list and the allow list.
pub fn check_domain_valid(domain: Option<&str>, local_site_data: &LocalSiteData) -> (r: Result<
    (),
    FederationError,
>)
    ensures
        outcome_view(r) == domain_verdict(
            match domain {
                Some(d) => Some(d@),
                None => None,
            },
            local_site_data@,
        ),
{
    let d = match domain {
        Some(d) => d,
        None => {
            return decide_domain(None, true, false, false, false);
        },
    };
    let on_block_list = any_domain_matches(&local_site_data.blocked_instances, d);
    let on_allow_list = any_domain_matches(&local_site_data.allowed_instances, d);
    decide_domain(
        domain,
        local_site_data.federation_enabled(),
        on_block_list,
        local_site_data.allowed_instances.len() > 0,
        on_allow_list,
    )
}

/// Judges an id by the federation switch and the two lists alone:
/// federation must be enabled, the id's domain must not be blocked, and
/// it must be on the allow list where one is in force. The local
/// instance is not known here and gets no exemption; whoever knows it
/// asks [`check_apub_id_valid_with_strictness`].
pub fn check_apub_id_valid(apub_id: &str, local_site_data: &LocalSiteData) -> (r: Result<
    (),
    FederationError,
>)
    ensures
        outcome_view(r) == domain_verdict(url_domain(apub_id@), local_site_data@),
{
    let domain = domain_of_url(apub_id);
    match &domain {
        Some(d) => check_domain_valid(Some(d.as_str()), local_site_data),
        None => check_domain_valid(None, local_site_data),
    }
}

/// Whether a domain is that of the local instance, letter case aside.
pub fn is_local(domain: &str, local_instance: &str) -> (r: bool)
    ensures
        r == is_local_domain(domain@, local_instance@),
{
    eq_ignore_case(domain, local_instance)
}

/// Judges a domain that was already read from a URL, or its absence: the
/// local instance passes at once, in whatever letter case it is written;
/// every other domain goes through the lists; and a strict check then
/// wants it among the allowed instances and the local one.
pub fn check_domain_valid_with_strictness(
    domain: Option<&str>,
    is_strict: bool,
    local_instance: &str,
    local_site_data: &LocalSiteData,
) -> (r: Result<(), FederationError>)
    ensures
        outcome_view(r) == strict_verdict(
            match domain {
                Some(d) => Some(d@),
                None => None,
            },
            is_strict,
            local_instance@,
            local_site_data@,
        ),
{
    let d = match domain {
        Some(d) => d,
        None => {
            return decide_strict(None, false, Ok(()), false, false);
        },
    };
    let local = is_local(d, local_instance);
    let listing = check_domain_valid(domain, local_site_data);
    let strict_in_force = is_strict && local_site_data.allowed_instances.len() > 0;
    let allowed = any_domain_matches(&local_site_data.allowed_instances, d);
    decide_strict(domain, local, listing, strict_in_force, allowed || local)
}

/// Checks an id as [`check_apub_id_valid`] does, but lets the local
/// instance pass whatever the policy says, and under `is_strict` asks
/// once more that the domain be among the allowed instances and the
/// local one where an allow list is in force.
pub fn check_apub_id_valid_with_strictness(
    apub_id: &str,
    is_strict: bool,
    local_instance: &str,
    local_site_data: &LocalSiteData,
) -> (r: Result<(), FederationError>)
    ensures
        outcome_view(r) == strict_verdict(
            url_domain(apub_id@),
            is_strict,
            local_instance@,
            local_site_data@,
        ),
{
    let domain = domain_of_url(apub_id);
    match &domain {
        Some(d) => check_domain_valid_with_strictness(
            Some(d.as_str()),
            is_strict,
            local_instance,
            local_site_data,
        ),
        None => check_domain_valid_with_strictness(None, is_strict, local_instance, local_site_data),
    }
}

/// A domain that equals an entry of the block list up to letter case is
/// refused as blocked, however it is spelled, once federation is enabled
/// and the domain is not that of the local instance.
pub proof fn lemma_blocked_whatever_the_case(
    entry: Seq<char>,
    domain: Seq<char>,
    is_strict: bool,
    local_instance: Seq<char>,
    policy: TrustPolicy,
)
    requires
        policy.blocked.contains(entry),
        same_ignoring_case(entry, domain),
        policy.federation_enabled,
        !is_local_domain(domain, local_instance),
    ensures
        domain_verdict(Some(domain), policy) == Err::<(), _>(
            FederationErrorView::DomainBlocked(domain),
        ),
        strict_verdict(Some(domain), is_strict, local_instance, policy) == Err::<(), _>(
            FederationErrorView::DomainBlocked(domain),
        ),
{
    let k = choose|k: int| 0 <= k < policy.blocked.len() && policy.blocked[k] == entry;
    assert(same_ignoring_case(policy.blocked[k], domain));
}

/// Two spellings of one domain that differ only in letter case get the
/// same kind of verdict from the lists.
pub proof fn lemma_verdict_ignores_case(a: Seq<char>, b: Seq<char>, policy: TrustPolicy)
    requires
        same_ignoring_case(a, b),
    ensures
        domain_verdict(Some(a), policy) is Ok <==> domain_verdict(Some(b), policy) is Ok,
        domain_verdict(Some(a), policy) == Err::<(), _>(FederationErrorView::DomainBlocked(a))
            <==> domain_verdict(Some(b), policy) == Err::<(), _>(
            FederationErrorView::DomainBlocked(b),
        ),
        domain_verdict(Some(a), policy) == Err::<(), _>(
            FederationErrorView::DomainNotInAllowList(a),
        ) <==> domain_verdict(Some(b), policy) == Err::<(), _>(
            FederationErrorView::DomainNotInAllowList(b),
        ),
{
    lemma_listed_ignores_case(policy.blocked, a, b);
    lemma_listed_ignores_case(policy.allowed, a, b);
}

/// Whether a list holds a domain up to letter case does not depend on the
/// domain's own spelling.
pub proof fn lemma_listed_ignores_case(list: Seq<Seq<char>>, a: Seq<char>, b: Seq<char>)
    requires
        same_ignoring_case(a, b),
    ensures
        listed_ignoring_case(list, a) == listed_ignoring_case(list, b),
{
    if listed_ignoring_case(list, a) {
        let k = choose|k: int| 0 <= k < list.len() && same_ignoring_case(#[trigger] list[k], a);
        assert(same_ignoring_case(list[k], b));
    }
    if listed_ignoring_case(list, b) {
        let k = choose|k: int| 0 <= k < list.len() && same_ignoring_case(#[trigger] list[k], b);
        assert(same_ignoring_case(list[k], a));
    }
}

/// With a non-empty allow list, a domain that is neither on it nor the
/// local instance is refused as not allowed, once federation is enabled
/// and the domain is not blocked.
pub proof fn lemma_outside_allow_list(
    domain: Seq<char>,
    is_strict: bool,
    local_instance: Seq<char>,
    policy: TrustPolicy,
)
    requires
        policy.allowed.len() > 0,
        !listed_ignoring_case(policy.allowed, domain),
        !is_local_domain(domain, local_instance),
        policy.federation_enabled,
        !listed_ignoring_case(policy.blocked, domain),
    ensures
        domain_verdict(Some(domain), policy) == Err::<(), _>(
            FederationErrorView::DomainNotInAllowList(domain),
        ),
        strict_verdict(Some(domain), is_strict, local_instance, policy) == Err::<(), _>(
            FederationErrorView::DomainNotInAllowList(domain),
        ),
{
}

/// The domain of the local instance passes under every policy, strict
/// or not, in whatever letter case the domain or the hostname is written.
pub proof fn lemma_local_always_valid(
    domain: Seq<char>,
    is_strict: bool,
    local_instance: Seq<char>,
    policy: TrustPolicy,
)
    requires
        is_local_domain(domain, local_instance),
    ensures
        strict_verdict(Some(domain), is_strict, local_instance, policy) == Ok::<
            (),
            FederationErrorView,
        >(()),
        strict_verdict(Some(local_instance), is_strict, local_instance, policy) == Ok::<
            (),
            FederationErrorView,
        >(()),
{
}

/// A domain that equals an entry of the allow list up to letter case
/// passes, strict or not, once federation is enabled and the domain is
/// not blocked.
pub proof fn lemma_allowed_whatever_the_case(
    entry: Seq<char>,
    domain: Seq<char>,
    is_strict: bool,
    local_instance: Seq<char>,
    policy: TrustPolicy,
)
    requires
        policy.allowed.contains(entry),
        same_ignoring_case(entry, domain),
        policy.federation_enabled,
        !listed_ignoring_case(policy.blocked, domain),
    ensures
        domain_verdict(Some(domain), policy) == Ok::<(), FederationErrorView>(()),
        strict_verdict(Some(domain), is_strict, local_instance, policy) == Ok::<
            (),
            FederationErrorView,
        >(()),
{
    let k = choose|k: int| 0 <= k < policy.allowed.len() && policy.allowed[k] == entry;
    assert(same_ignoring_case(policy.allowed[k], domain));
}

/// A strict check refuses nothing that the lists let pass: a domain that
/// passes an allow list in force is among the allowed instances. So the
/// verdict is the same with and without it, and it is never the refusal
/// by the strict allow list.
pub proof fn lemma_strict_refuses_nothing_more(
    domain: Option<Seq<char>>,
    is_strict: bool,
    local_instance: Seq<char>,
    policy: TrustPolicy,
)
    ensures
        strict_verdict(domain, is_strict, local_instance, policy) == strict_verdict(
            domain,
            false,
            local_instance,
            policy,
        ),
        strict_verdict(domain, is_strict, local_instance, policy) != Err::<(), _>(
            FederationErrorView::FederationDisabledByStrictAllowList,
        ),
{
}

/// With federation switched off, every domain but that of the local
/// instance is refused for that reason, whatever the lists hold.
pub proof fn lemma_disabled_refuses_remote(
    domain: Seq<char>,
    is_strict: bool,
    local_instance: Seq<char>,
    policy: TrustPolicy,
)
    requires
        !policy.federation_enabled,
        !is_local_domain(domain, local_instance),
    ensures
        domain_verdict(Some(domain), policy) == Err::<(), _>(
            FederationErrorView::FederationDisabled,
        ),
        strict_verdict(Some(domain), is_strict, local_instance, policy) == Err::<(), _>(
            FederationErrorView::FederationDisabled,
        ),
{
}

/// The message that the transport layer gets for a refused URL. It
/// names the domain where a list refused it, and is silent on what else
/// the lists hold.
pub open spec fn refusal_message(error: FederationErrorView) -> Seq<char> {
    match error {
        FederationErrorView::FederationDisabled => "Federation disabled"@,
        FederationErrorView::DomainBlocked(domain) => "Domain "@ + debug_text(domain)
            + " is blocked"@,
        FederationErrorView::DomainNotInAllowList(domain) => "Domain "@ + debug_text(domain)
            + " is not in allowlist"@,
        _ => "Failed validating apub id"@,
    }
}

/// The message for a refusal, given the domain as it is to be shown.
pub open spec fn refusal_message_with(error: FederationErrorView, shown_domain: Seq<char>) -> Seq<
    char,
> {
    match error {
        FederationErrorView::FederationDisabled => "Federation disabled"@,
        FederationErrorView::DomainBlocked(_) => "Domain "@ + shown_domain + " is blocked"@,
        FederationErrorView::DomainNotInAllowList(_) => "Domain "@ + shown_domain
            + " is not in allowlist"@,
        _ => "Failed validating apub id"@,
    }
}

/// Words a refusal for the transport layer, with the domain shown as given.
pub fn refusal_text_with(error: &FederationError, shown_domain: &str) -> (r: String)
    ensures
        r@ == refusal_message_with(error@, shown_domain@),
{
    match error {
        FederationError::FederationDisabled => "Federation disabled".to_owned(),
        FederationError::DomainBlocked(_) => "Domain ".to_owned().concat(shown_domain).concat(
            " is blocked",
        ),
        FederationError::DomainNotInAllowList(_) => "Domain ".to_owned().concat(
            shown_domain,
        ).concat(" is not in allowlist"),
        _ => "Failed validating apub id".to_owned(),
    }
}

/// Words a refusal for the transport layer.
pub fn refusal_text(error: &FederationError) -> (r: String)
    ensures
        r@ == refusal_message(error@),
{
    match error {
        FederationError::DomainBlocked(domain) | FederationError::DomainNotInAllowList(domain) => {
            let quoted = debug_quoted(domain.as_str());
            refusal_text_with(error, quoted.as_str())
        },
        _ => refusal_text_with(error, ""),
    }
}

/// The check that the transport layer runs on every URL it is about to
/// fetch or accept: one snapshot of the policy, and the hostname of the
/// local instance, whose own URLs always pass.
#[derive(Debug, Clone)]
pub struct VerifyUrlData {
    pub local_site_data: LocalSiteData,
    pub local_instance: String,
}

impl VerifyUrlData {
    /// Judges a URL: one of the local instance passes whatever the
    /// policy holds, every other is judged by the lists; where it is
    /// refused, the message says why.
    pub fn verify(&self, url: &str) -> (r: Result<(), String>)
        ensures
            (match r {
                Ok(_) => Ok(()),
                Err(message) => Err(message@),
            }) == (match strict_verdict(
                url_domain(url@),
                false,
                self.local_instance@,
                self.local_site_data@,
            ) {
                Ok(_) => Ok::<(), Seq<char>>(()),
                Err(e) => Err(refusal_message(e)),
            }),
    {
        match check_apub_id_valid_with_strictness(
            url,
            false,
            self.local_instance.as_str(),
            &self.local_site_data,
        ) {
            Ok(_) => Ok(()),
            Err(e) => Err(refusal_text(&e)),
        }
    }
}

} // verus!
