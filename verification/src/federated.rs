//! The list of instances that this instance is linked with.

use vstd::prelude::*;
use vstd::utf8::encode_utf8;
use crate::text::{
    compare_texts, contains_text, lemma_bytes_lt_transitive, str_eq, text_lt, texts_of, TextOrder,
};
use crate::utils::ApiError;

verus! {

/// The federation part of the configuration.
#[derive(Debug, Clone)]
pub struct FederationConfig {
    pub enabled: bool,
    pub allowed_instances: Option<Vec<String>>,
    pub blocked_instances: Option<Vec<String>>,
}

/// The instances that this instance federates with, allows and blocks.
#[derive(Debug, Clone)]
pub struct FederatedInstances {
    pub linked: Vec<String>,
    pub allowed: Option<Vec<String>>,
    pub blocked: Option<Vec<String>>,
}

/// The host of a URL text as `url::Url::host_str` reports it after
/// `url::Url::parse`: `None` where the text does not parse, `Some(None)`
/// where the URL has no host.
pub uninterp spec fn url_host(text: Seq<char>) -> Option<Option<Seq<char>>>;

/// Parses `text` with `url::Url::parse` and asks `url::Url::host_str`
/// for the host. The result is a function of the text alone; the
/// contract names it and says no more.
#[verifier::external_body]
pub(crate) fn host_of_url(text: &str) -> (r: Option<Option<String>>)
    ensures
        (match r {
            Some(Some(h)) => Some(Some(h@)),
            Some(None) => Some(None),
            None => None,
        }) == url_host(text@),
{
    match url::Url::parse(text) {
        Ok(parsed) => Some(parsed.host_str().map(|h| h.to_string())),
        Err(_) => None,
    }
}

/// The host that a community is listed under: the host of its id, or
/// the empty text where the id has none.
pub open spec fn listed_host(actor_id: Seq<char>) -> Seq<char> {
    match url_host(actor_id) {
        Some(Some(h)) => h,
        _ => Seq::empty(),
    }
}

/// The texts of a list that may be absent; an absent list holds nothing.
pub open spec fn texts_of_opt(list: Option<Vec<String>>) -> Seq<Seq<char>> {
    match list {
        Some(v) => texts_of(v@),
        None => Seq::empty(),
    }
}

/// Whether an instance stays on the list of linked instances: with a
/// block list in force, blocked instances are taken off, and so is this
/// instance itself.
pub open spec fn stays(x: Seq<char>, blocked: Option<Vec<String>>, hostname: Seq<char>) -> bool {
    match blocked {
        Some(b) => !texts_of(b@).contains(x) && x != hostname,
        None => true,
    }
}

/// Whether an instance is linked: it hosts a federated community or is
/// on the allow list, and it stays.
pub open spec fn is_linked(
    x: Seq<char>,
    hosts: Seq<Seq<char>>,
    allowed: Option<Vec<String>>,
    blocked: Option<Vec<String>>,
    hostname: Seq<char>,
) -> bool {
    &&& stays(x, blocked, hostname)
    &&& hosts.contains(x) || texts_of_opt(allowed).contains(x)
}

/// The hosts that a list of communities is listed under, in order.
pub open spec fn listed_hosts(ids: Seq<Seq<char>>) -> Seq<Seq<char>> {
    Seq::new(ids.len(), |i: int| listed_host(ids[i]))
}

/// Every id is a URL.
pub open spec fn all_parse(ids: Seq<Seq<char>>) -> bool {
    forall|i: int| 0 <= i < ids.len() ==> url_host(#[trigger] ids[i]) is Some
}

/// The result carries the two lists of the configuration as they are,
/// and its linked instances are exactly those that are linked, sorted.
pub open spec fn well_linked(
    found: FederatedInstances,
    hosts: Seq<Seq<char>>,
    config: FederationConfig,
    hostname: Seq<char>,
) -> bool {
    &&& found.allowed == config.allowed_instances
    &&& found.blocked == config.blocked_instances
    &&& strictly_increasing(texts_of(found.linked@))
    &&& forall|x: Seq<char>| #[trigger]
        texts_of(found.linked@).contains(x) <==> is_linked(
            x,
            hosts,
            config.allowed_instances,
            config.blocked_instances,
            hostname,
        )
}

/// Every text comes before all that follow it, so none occurs twice.
pub open spec fn strictly_increasing(list: Seq<Seq<char>>) -> bool {
    forall|i: int, j: int| 0 <= i < j < list.len() ==> text_lt(#[trigger] list[i], #[trigger] list[j])
}

fn keeps(text: &str, blocked: &Option<Vec<String>>, hostname: &str) -> (r: bool)
    ensures
        r == stays(text@, *blocked, hostname@),
{
    match blocked {
        Some(b) => !contains_text(b, text) && !str_eq(text, hostname),
        None => true,
    }
}

/// Puts a text into a sorted list at its place, unless the list holds it.
pub fn insert_sorted(list: &mut Vec<String>, text: String)
    requires
        strictly_increasing(texts_of(old(list)@)),
    ensures
        strictly_increasing(texts_of(final(list)@)),
        forall|x: Seq<char>|
            #[trigger] texts_of(final(list)@).contains(x) <==> texts_of(old(list)@).contains(x) || x
                == text@,
{
    let ghost before = texts_of(list@);
    let mut p: usize = 0;
    let mut found = false;
    while p < list.len()
        invariant_except_break
            !found,
        invariant
            p <= list.len(),
            list@ == old(list)@,
            forall|k: int| 0 <= k < p ==> text_lt(#[trigger] before[k], text@),
            before == texts_of(list@),
        ensures
            p <= list.len(),
            list@ == old(list)@,
            forall|k: int| 0 <= k < p ==> text_lt(#[trigger] before[k], text@),
            found ==> p < list.len() && before[p as int] == text@,
            !found && p < list.len() ==> text_lt(text@, before[p as int]),
        decreases list.len() - p,
    {
        match compare_texts(list[p].as_str(), text.as_str()) {
            TextOrder::Before => {
                p += 1;
            },
            TextOrder::Same => {
                found = true;
                break ;
            },
            TextOrder::After => {
                break ;
            },
        }
    }
    if found {
        assert(before.contains(text@));
        return ;
    }
    list.insert(p, text);
    proof {
        let after = texts_of(list@);
        assert(after =~= before.insert(p as int, text@));
        assert forall|i: int, j: int| 0 <= i < j < after.len() implies text_lt(
            #[trigger] after[i],
            #[trigger] after[j],
        ) by {
            if j < p {
                assert(text_lt(before[i], before[j]));
            } else if j == p {
                assert(text_lt(before[i], text@));
            } else if i < p {
                assert(text_lt(before[i], before[j - 1]));
            } else if i == p {
                if j - 1 > p {
                    assert(text_lt(before[p as int], before[j - 1]));
                    lemma_bytes_lt_transitive(
                        encode_utf8(text@),
                        encode_utf8(before[p as int]),
                        encode_utf8(before[j - 1]),
                    );
                }
            } else {
                assert(text_lt(before[i - 1], before[j - 1]));
            }
        }
        assert forall|x: Seq<char>| #[trigger]
            after.contains(x) <==> before.contains(x) || x == text@ by {
            if after.contains(x) {
                let k = choose|k: int| 0 <= k < after.len() && after[k] == x;
                if k < p {
                    assert(before[k] == x);
                } else if k > p {
                    assert(before[k - 1] == x);
                }
            }
            if before.contains(x) {
                let k = choose|k: int| 0 <= k < before.len() && before[k] == x;
                if k < p {
                    assert(after[k] == x);
                } else {
                    assert(after[k + 1] == x);
                }
            }
            if x == text@ {
                assert(after[p as int] == x);
            }
        }
    }
}

/// Links the hosts of the federated communities and the allowed
/// instances into one list: without the blocked ones and this instance
/// where a block list is in force, sorted and each once. The two lists of
/// the configuration are handed on as they are.
pub fn link_instances(hosts: &Vec<String>, federation_config: FederationConfig, hostname: &str) -> (r:
    FederatedInstances)
    ensures
        well_linked(r, texts_of(hosts@), federation_config, hostname@),
{
    let allowed = federation_config.allowed_instances;
    let blocked = federation_config.blocked_instances;
    let mut linked: Vec<String> = Vec::new();
    let mut j: usize = 0;
    while j < hosts.len()
        invariant
            j <= hosts.len(),
            strictly_increasing(texts_of(linked@)),
            forall|x: Seq<char>| #[trigger]
                texts_of(linked@).contains(x) <==> stays(x, blocked, hostname@) && texts_of(
                    hosts@,
                ).take(j as int).contains(x),
        decreases hosts.len() - j,
    {
        let ghost done = texts_of(hosts@).take(j as int);
        let ghost more = texts_of(hosts@).take(j as int + 1);
        let ghost current = texts_of(hosts@)[j as int];
        assert(more =~= done.push(current));
        assert forall|x: Seq<char>| more.contains(x) <==> done.contains(x) || x == current by {
            if done.contains(x) {
                let k = choose|k: int| 0 <= k < done.len() && done[k] == x;
                assert(more[k] == x);
            }
            if x == current {
                assert(more[j as int] == x);
            }
        }
        if keeps(hosts[j].as_str(), &blocked, hostname) {
            insert_sorted(&mut linked, hosts[j].clone());
        }
        j += 1;
    }
    assert(texts_of(hosts@).take(hosts.len() as int) =~= texts_of(hosts@));

    if let Some(list) = &allowed {
        let mut k: usize = 0;
        while k < list.len()
            invariant
                k <= list.len(),
                strictly_increasing(texts_of(linked@)),
                forall|x: Seq<char>| #[trigger]
                    texts_of(linked@).contains(x) <==> stays(x, blocked, hostname@) && (texts_of(
                        hosts@,
                    ).contains(x) || texts_of(list@).take(k as int).contains(x)),
            decreases list.len() - k,
        {
            let ghost done = texts_of(list@).take(k as int);
            let ghost more = texts_of(list@).take(k as int + 1);
            let ghost current = texts_of(list@)[k as int];
            assert(more =~= done.push(current));
            assert forall|x: Seq<char>| more.contains(x) <==> done.contains(x) || x == current by {
                if done.contains(x) {
                    let m = choose|m: int| 0 <= m < done.len() && done[m] == x;
                    assert(more[m] == x);
                }
                if x == current {
                    assert(more[k as int] == x);
                }
            }
            if keeps(list[k].as_str(), &blocked, hostname) {
                insert_sorted(&mut linked, list[k].clone());
            }
            k += 1;
        }
        assert(texts_of(list@).take(list.len() as int) =~= texts_of(list@));
    }
    proof {
        assert forall|x: Seq<char>| #[trigger]
            texts_of(linked@).contains(x) <==> is_linked(
                x,
                texts_of(hosts@),
                allowed,
                blocked,
                hostname@,
            ) by {
            if allowed is None {
                assert(!texts_of_opt(allowed).contains(x));
            }
        }
    }
    FederatedInstances { linked, allowed, blocked }
}

/// Builds the list of linked instances from the ids of the federated
/// communities and the configuration. With federation off there is no
/// list. An id that is no URL fails the whole call. Otherwise the hosts
/// of the communities are linked with the allowed instances.
pub fn build_federated_instances(
    distinct_communities: &Vec<String>,
    federation_config: FederationConfig,
    hostname: &str,
) -> (r: Result<Option<FederatedInstances>, ApiError>)
    ensures
        !federation_config.enabled ==> r is Ok && r->Ok_0 is None,
        federation_config.enabled && !all_parse(texts_of(distinct_communities@)) ==> r is Err
            && r->Err_0 == ApiError::Unknown,
        federation_config.enabled && all_parse(texts_of(distinct_communities@)) ==> r is Ok
            && r->Ok_0 is Some && well_linked(
            r->Ok_0->0,
            listed_hosts(texts_of(distinct_communities@)),
            federation_config,
            hostname@,
        ),
{
    if !federation_config.enabled {
        return Ok(None);
    }
    let ghost ids = texts_of(distinct_communities@);
    let mut hosts: Vec<String> = Vec::new();
    let mut i: usize = 0;
    while i < distinct_communities.len()
        invariant
            i <= distinct_communities.len(),
            federation_config.enabled,
            ids == texts_of(distinct_communities@),
            hosts@.len() == i,
            forall|k: int| 0 <= k < i ==> url_host(#[trigger] ids[k]) is Some,
            forall|k: int| 0 <= k < i ==> #[trigger] texts_of(hosts@)[k] == listed_host(ids[k]),
        decreases distinct_communities.len() - i,
    {
        let ghost shown = texts_of(hosts@);
        assert(ids[i as int] == distinct_communities@[i as int]@);
        match host_of_url(distinct_communities[i].as_str()) {
            None => {
                assert(url_host(ids[i as int]) is None);
                return Err(ApiError::Unknown);
            },
            Some(Some(h)) => {
                hosts.push(h);
            },
            Some(None) => {
                hosts.push(String::new());
            },
        }
        assert(texts_of(hosts@)[i as int] == listed_host(ids[i as int]));
        assert forall|k: int| 0 <= k < i + 1 implies #[trigger] texts_of(hosts@)[k] == listed_host(
            ids[k],
        ) by {
            if k < i {
                assert(texts_of(hosts@)[k] == shown[k]);
            }
        }
        i += 1;
    }
    assert(texts_of(hosts@) =~= listed_hosts(ids));
    Ok(Some(link_instances(&hosts, federation_config, hostname)))
}

} // verus!
