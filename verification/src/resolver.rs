//! The object resolver's decisions: where an object is taken from, what
//! a fetched object must look like, and the budget of fetches that one
//! resolution may spend.

use vstd::prelude::*;
use crate::error::{outcome_view, FederationError, FederationErrorView};
use crate::policy::{LocalSiteData, TrustPolicy};
use crate::text::{contains_text, str_eq, texts_of};
use crate::validator::{
    check_domain_valid_with_strictness, domain_of_url, is_local, is_local_domain, strict_verdict,
    url_domain,
};

verus! {

/// Most fetches over the network that resolving one object may cause.
/// High enough for a new community with its posts, moderators and
/// featured posts.
pub const FEDERATION_HTTP_FETCH_LIMIT: u32 = 100;

/// After this many seconds a cached actor is fetched anew.
pub const ACTOR_REFETCH_INTERVAL_SECONDS: i64 = 86400;

/// The declared type of an object.
#[derive(Debug, Clone, Copy, PartialEq, Eq, Structural)]
pub enum ObjectKind {
    Person,
    Community,
    Instance,
    Post,
    Comment,
    /// A collection of an actor: its outbox, its followers, its
    /// featured posts, its moderators.
    Collection,
}

/// An object as the resolver keeps it.
#[derive(Debug, Clone)]
pub struct CachedObject {
    pub url: String,
    pub kind: ObjectKind,
    pub payload: String,
    /// Seconds since the epoch.
    pub last_refreshed_at: i64,
}

/// Actors change over time and are refreshed; posts and comments are
/// kept as they were fetched.
pub open spec fn is_actor_kind(kind: ObjectKind) -> bool {
    kind == ObjectKind::Person || kind == ObjectKind::Community || kind == ObjectKind::Instance
}

/// A cached object is stale when it is an actor that was last refreshed
/// more than the refetch interval before `now`. A collection is always
/// stale: it is fetched anew each time it is asked for.
pub open spec fn is_stale(kind: ObjectKind, last_refreshed_at: int, now: int) -> bool {
    kind == ObjectKind::Collection || (is_actor_kind(kind) && last_refreshed_at < now
        - ACTOR_REFETCH_INTERVAL_SECONDS)
}

/// Whether a cached object has to be fetched anew.
pub fn needs_refresh(object: &CachedObject, now: i64) -> (r: bool)
    ensures
        r == is_stale(object.kind, object.last_refreshed_at as int, now as int),
{
    match object.kind {
        ObjectKind::Collection => {
            return true;
        },
        ObjectKind::Post | ObjectKind::Comment => {
            return false;
        },
        ObjectKind::Person | ObjectKind::Community | ObjectKind::Instance => {},
    }
    match now.checked_sub(ACTOR_REFETCH_INTERVAL_SECONDS) {
        Some(limit) => object.last_refreshed_at < limit,
        None => false,
    }
}

/// Where a resolution takes its object from.
#[derive(Debug, Clone, Copy, PartialEq, Eq, Structural)]
pub enum ResolvePlan {
    /// The URL is local: read storage, never the network.
    ReadLocal,
    /// The cache holds the object and it is fresh.
    UseCached,
    /// Fetch over the network, then check and cache what came.
    Fetch,
}

/// The source of an object: URLs of the local instance, in whatever
/// letter case, come from storage; a fresh cached object is used as it
/// is; everything else is fetched.
pub open spec fn resolve_plan(
    domain: Option<Seq<char>>,
    local_instance: Seq<char>,
    cached: Option<CachedObject>,
    now: int,
) -> ResolvePlan {
    if domain is Some && is_local_domain(domain->0, local_instance) {
        ResolvePlan::ReadLocal
    } else if cached is Some && !is_stale(
        cached->0.kind,
        cached->0.last_refreshed_at as int,
        now,
    ) {
        ResolvePlan::UseCached
    } else {
        ResolvePlan::Fetch
    }
}

/// Decides the source for a domain that was already read from the URL.
pub fn plan_for_domain(
    domain: Option<&str>,
    local_instance: &str,
    cached: Option<&CachedObject>,
    now: i64,
) -> (r: ResolvePlan)
    ensures
        r == resolve_plan(
            match domain {
                Some(d) => Some(d@),
                None => None,
            },
            local_instance@,
            match cached {
                Some(c) => Some(*c),
                None => None,
            },
            now as int,
        ),
{
    if let Some(d) = domain {
        if is_local(d, local_instance) {
            return ResolvePlan::ReadLocal;
        }
    }
    match cached {
        Some(object) => if needs_refresh(object, now) {
            ResolvePlan::Fetch
        } else {
            ResolvePlan::UseCached
        },
        None => ResolvePlan::Fetch,
    }
}

/// Decides where the object behind `url` is taken from.
pub fn plan_resolve(url: &str, local_instance: &str, cached: Option<&CachedObject>, now: i64) -> (r:
    ResolvePlan)
    ensures
        r == resolve_plan(
            url_domain(url@),
            local_instance@,
            match cached {
                Some(c) => Some(*c),
                None => None,
            },
            now as int,
        ),
{
    let domain = domain_of_url(url);
    match &domain {
        Some(d) => plan_for_domain(Some(d.as_str()), local_instance, cached, now),
        None => plan_for_domain(None, local_instance, cached, now),
    }
}

/// What is wrong with a fetched object, if anything: its id must be the
/// URL that was asked for, and its type the type that was expected.
pub open spec fn fetched_fault(
    requested_url: Seq<char>,
    expected: ObjectKind,
    declared_id: Seq<char>,
    declared: ObjectKind,
) -> Option<Seq<char>> {
    if declared_id != requested_url {
        Some("object id does not match the requested url"@)
    } else if declared != expected {
        Some("object is not of the expected type"@)
    } else {
        None
    }
}

/// Checks a fetched object against the request that brought it.
pub fn check_fetched(requested_url: &str, expected: ObjectKind, fetched: &CachedObject) -> (r: Result<
    (),
    FederationError,
>)
    ensures
        outcome_view(r) == match fetched_fault(
            requested_url@,
            expected,
            fetched.url@,
            fetched.kind,
        ) {
            Some(reason) => Err::<(), _>(FederationErrorView::VerificationFailed(reason)),
            None => Ok(()),
        },
{
    if !str_eq(fetched.url.as_str(), requested_url) {
        return Err(
            FederationError::VerificationFailed(
                "object id does not match the requested url".to_owned(),
            ),
        );
    }
    if fetched.kind != expected {
        return Err(
            FederationError::VerificationFailed("object is not of the expected type".to_owned()),
        );
    }
    Ok(())
}

/// One top-level resolution: the fetches it has spent, and the objects
/// it has fetched and not yet handed over. The budget belongs to this
/// resolution alone.
pub struct Resolution {
    limit: u32,
    fetches: u32,
    exceeded: bool,
    staged: Vec<CachedObject>,
    visited: Vec<String>,
}

/// The mathematical value of a resolution in progress.
pub struct ResolutionView {
    pub limit: nat,
    pub fetches: nat,
    pub exceeded: bool,
    pub staged: Seq<CachedObject>,
    /// The URLs that the resolution has come by, each once.
    pub visited: Seq<Seq<char>>,
}

/// The resolution after it came by a URL: a URL that is new to it is
/// remembered, so that a cycle of references is walked once.
pub open spec fn visited_with(v: ResolutionView, url: Seq<char>) -> ResolutionView {
    if v.visited.contains(url) {
        v
    } else {
        ResolutionView { visited: v.visited.push(url), ..v }
    }
}

/// The resolution after one more fetch was asked for. Within the
/// budget the fetch is counted; beyond it the resolution is over, and
/// what it had fetched is dropped.
pub open spec fn charged(v: ResolutionView) -> ResolutionView {
    if !v.exceeded && v.fetches < v.limit {
        ResolutionView { fetches: v.fetches + 1, ..v }
    } else {
        ResolutionView { exceeded: true, staged: Seq::empty(), ..v }
    }
}

/// What the turn of one object in a resolution comes to, and the
/// resolution after it. A resolution that is over refuses everything.
/// An object that is local or freshly cached costs nothing. An object
/// to fetch must first pass the domain validator, and then a fetch is
/// charged to the budget; only after both may the network be asked.
pub open spec fn prepared(
    v: ResolutionView,
    domain: Option<Seq<char>>,
    is_strict: bool,
    local_instance: Seq<char>,
    cached: Option<CachedObject>,
    now: int,
    policy: TrustPolicy,
) -> (ResolutionView, Result<ResolvePlan, FederationErrorView>) {
    let plan = resolve_plan(domain, local_instance, cached, now);
    let verdict = strict_verdict(domain, is_strict, local_instance, policy);
    if v.exceeded {
        (v, Err(FederationErrorView::FetchLimitExceeded))
    } else if plan != ResolvePlan::Fetch {
        (v, Ok(plan))
    } else if verdict is Err {
        (v, Err(verdict->Err_0))
    } else if charged(v).exceeded {
        (charged(v), Err(FederationErrorView::FetchLimitExceeded))
    } else {
        (charged(v), Ok(ResolvePlan::Fetch))
    }
}

/// The mathematical value of a plan or the failure in its place.
pub open spec fn plan_view(r: Result<ResolvePlan, FederationError>) -> Result<
    ResolvePlan,
    FederationErrorView,
> {
    match r {
        Ok(plan) => Ok(plan),
        Err(e) => Err(e@),
    }
}

/// The resolution after a checked object was handed to it.
pub open spec fn staged_with(v: ResolutionView, object: CachedObject) -> ResolutionView {
    if v.exceeded {
        v
    } else {
        ResolutionView { staged: v.staged.push(object), ..v }
    }
}

impl View for Resolution {
    type V = ResolutionView;

    closed spec fn view(&self) -> ResolutionView {
        ResolutionView {
            limit: self.limit as nat,
            fetches: self.fetches as nat,
            exceeded: self.exceeded,
            staged: self.staged@,
            visited: texts_of(self.visited@),
        }
    }
}

impl Resolution {
    /// The budget was never overdrawn without the resolution being over,
    /// and a resolution that is over holds nothing.
    pub open spec fn wf(&self) -> bool {
        &&& self@.fetches <= self@.limit
        &&& self@.limit <= u32::MAX
        &&& self@.exceeded ==> self@.staged.len() == 0
    }

    /// Starts a resolution with a budget of `limit` fetches.
    pub fn begin(limit: u32) -> (r: Resolution)
        ensures
            r.wf(),
            r@ == fresh(limit as nat),
    {
        let r = Resolution {
            limit,
            fetches: 0,
            exceeded: false,
            staged: Vec::new(),
            visited: Vec::new(),
        };
        assert(texts_of(r.visited@) =~= Seq::<Seq<char>>::empty());
        r
    }

    /// Prepares the turn of one object whose domain was already read
    /// from its URL: decides where the object comes from and, where it
    /// is to be fetched, validates the domain and charges the fetch, in
    /// that order.
    pub fn prepare_for_domain(
        &mut self,
        domain: Option<&str>,
        is_strict: bool,
        local_instance: &str,
        cached: Option<&CachedObject>,
        now: i64,
        local_site_data: &LocalSiteData,
    ) -> (r: Result<ResolvePlan, FederationError>)
        requires
            old(self).wf(),
        ensures
            final(self).wf(),
            (final(self)@, plan_view(r)) == prepared(
                old(self)@,
                match domain {
                    Some(d) => Some(d@),
                    None => None,
                },
                is_strict,
                local_instance@,
                match cached {
                    Some(c) => Some(*c),
                    None => None,
                },
                now as int,
                local_site_data@,
            ),
    {
        if self.exceeded {
            return Err(FederationError::FetchLimitExceeded);
        }
        let plan = plan_for_domain(domain, local_instance, cached, now);
        match plan {
            ResolvePlan::Fetch => {},
            _ => {
                return Ok(plan);
            },
        }
        match check_domain_valid_with_strictness(
            domain,
            is_strict,
            local_instance,
            local_site_data,
        ) {
            Ok(_) => {},
            Err(e) => {
                return Err(e);
            },
        }
        match self.charge() {
            Ok(_) => Ok(ResolvePlan::Fetch),
            Err(e) => Err(e),
        }
    }

    /// Prepares the turn of the object behind `url`. What it answers
    /// is all that may be done for the object: read storage, use the
    /// cached object, or fetch; a failure ends the resolution.
    pub fn prepare(
        &mut self,
        url: &str,
        is_strict: bool,
        local_instance: &str,
        cached: Option<&CachedObject>,
        now: i64,
        local_site_data: &LocalSiteData,
    ) -> (r: Result<ResolvePlan, FederationError>)
        requires
            old(self).wf(),
        ensures
            final(self).wf(),
            (final(self)@, plan_view(r)) == prepared(
                old(self)@,
                url_domain(url@),
                is_strict,
                local_instance@,
                match cached {
                    Some(c) => Some(*c),
                    None => None,
                },
                now as int,
                local_site_data@,
            ),
    {
        let domain = domain_of_url(url);
        match &domain {
            Some(d) => self.prepare_for_domain(
                Some(d.as_str()),
                is_strict,
                local_instance,
                cached,
                now,
                local_site_data,
            ),
            None => self.prepare_for_domain(
                None,
                is_strict,
                local_instance,
                cached,
                now,
                local_site_data,
            ),
        }
    }

    /// Notes that the resolution has come by `url`, and says whether
    /// this is the first time. Only a reference that is met for the first
    /// time is followed.
    pub fn first_visit(&mut self, url: &str) -> (r: bool)
        requires
            old(self).wf(),
        ensures
            final(self).wf(),
            r == !old(self)@.visited.contains(url@),
            final(self)@ == visited_with(old(self)@, url@),
    {
        if contains_text(&self.visited, url) {
            false
        } else {
            let ghost before = texts_of(self.visited@);
            self.visited.push(url.to_owned());
            assert(texts_of(self.visited@) =~= before.push(url@));
            true
        }
    }

    /// How many fetches are left.
    pub fn remaining(&self) -> (r: u32)
        requires
            self.wf(),
        ensures
            r == (if self@.exceeded {
                0
            } else {
                self@.limit - self@.fetches
            }),
    {
        if self.exceeded {
            0
        } else {
            self.limit - self.fetches
        }
    }

    /// Asks for one more fetch. Every reference that the resolution
    /// follows over the network is charged here first. Once the budget is
    /// spent, the whole resolution fails and keeps nothing of what it had
    /// fetched.
    pub fn charge(&mut self) -> (r: Result<(), FederationError>)
        requires
            old(self).wf(),
        ensures
            final(self).wf(),
            final(self)@ == charged(old(self)@),
            outcome_view(r) == (if final(self)@.exceeded {
                Err::<(), _>(FederationErrorView::FetchLimitExceeded)
            } else {
                Ok(())
            }),
    {
        if !self.exceeded && self.fetches < self.limit {
            self.fetches = self.fetches + 1;
            Ok(())
        } else {
            self.exceeded = true;
            self.staged = Vec::new();
            Err(FederationError::FetchLimitExceeded)
        }
    }

    /// Takes a fetched object after checking it against its request. A
    /// resolution that is over takes nothing.
    pub fn accept(&mut self, requested_url: &str, expected: ObjectKind, fetched: CachedObject) -> (r:
        Result<(), FederationError>)
        requires
            old(self).wf(),
        ensures
            final(self).wf(),
            old(self)@.exceeded ==> outcome_view(r) == Err::<(), _>(
                FederationErrorView::FetchLimitExceeded,
            ) && final(self)@ == old(self)@,
            !old(self)@.exceeded ==> match fetched_fault(
                requested_url@,
                expected,
                fetched.url@,
                fetched.kind,
            ) {
                Some(reason) => outcome_view(r) == Err::<(), _>(
                    FederationErrorView::VerificationFailed(reason),
                ) && final(self)@ == old(self)@,
                None => r is Ok && final(self)@ == staged_with(old(self)@, fetched),
            },
    {
        if self.exceeded {
            return Err(FederationError::FetchLimitExceeded);
        }
        match check_fetched(requested_url, expected, &fetched) {
            Ok(_) => {
                self.staged.push(fetched);
                Ok(())
            },
            Err(e) => Err(e),
        }
    }

    /// Ends the resolution. What it fetched is handed over for caching
    /// only if the budget held; otherwise nothing is.
    pub fn finish(self) -> (r: Result<Vec<CachedObject>, FederationError>)
        requires
            self.wf(),
        ensures
            match r {
                Ok(objects) => !self@.exceeded && objects@ == self@.staged,
                Err(e) => self@.exceeded && e@ == FederationErrorView::FetchLimitExceeded,
            },
    {
        if self.exceeded {
            Err(FederationError::FetchLimitExceeded)
        } else {
            Ok(self.staged)
        }
    }
}

/// What a resolution does, one after the other.
pub enum ResolveOp {
    /// It comes by a URL.
    Visit(Seq<char>),
    /// It asks for a fetch.
    Charge,
    /// It takes a fetched object that passed its check.
    Stage(CachedObject),
}

/// The resolution after a run of operations.
pub open spec fn after_ops(start: ResolutionView, ops: Seq<ResolveOp>) -> ResolutionView
    decreases ops.len(),
{
    if ops.len() == 0 {
        start
    } else {
        let before = after_ops(start, ops.drop_last());
        match ops.last() {
            ResolveOp::Visit(url) => visited_with(before, url),
            ResolveOp::Charge => charged(before),
            ResolveOp::Stage(object) => staged_with(before, object),
        }
    }
}

/// How many fetches a run of operations asks for.
pub open spec fn fetches_asked(ops: Seq<ResolveOp>) -> nat
    decreases ops.len(),
{
    if ops.len() == 0 {
        0
    } else {
        fetches_asked(ops.drop_last()) + (if ops.last() is Charge {
            1nat
        } else {
            0nat
        })
    }
}

/// A fresh resolution with the given budget.
pub open spec fn fresh(limit: nat) -> ResolutionView {
    ResolutionView {
        limit,
        fetches: 0,
        exceeded: false,
        staged: Seq::empty(),
        visited: Seq::empty(),
    }
}

/// A resolution is over exactly when it asked for more fetches than its
/// budget; until then it has counted every fetch.
pub proof fn lemma_budget_counts_fetches(limit: nat, ops: Seq<ResolveOp>)
    ensures
        after_ops(fresh(limit), ops).limit == limit,
        after_ops(fresh(limit), ops).exceeded <==> fetches_asked(ops) > limit,
        !after_ops(fresh(limit), ops).exceeded ==> after_ops(fresh(limit), ops).fetches
            == fetches_asked(ops),
        after_ops(fresh(limit), ops).exceeded ==> after_ops(fresh(limit), ops).fetches == limit,
    decreases ops.len(),
{
    if ops.len() > 0 {
        lemma_budget_counts_fetches(limit, ops.drop_last());
    }
}

/// A resolution that asks for more fetches than its budget holds nothing
/// that could be handed over, whatever it had fetched before.
pub proof fn lemma_over_budget_keeps_nothing(limit: nat, ops: Seq<ResolveOp>)
    requires
        fetches_asked(ops) > limit,
    ensures
        after_ops(fresh(limit), ops).exceeded,
        after_ops(fresh(limit), ops).staged.len() == 0,
    decreases ops.len(),
{
    lemma_budget_counts_fetches(limit, ops);
    lemma_over_holds_nothing(limit, ops);
}

/// A resolution that is over holds nothing.
pub proof fn lemma_over_holds_nothing(limit: nat, ops: Seq<ResolveOp>)
    ensures
        after_ops(fresh(limit), ops).exceeded ==> after_ops(fresh(limit), ops).staged.len() == 0,
    decreases ops.len(),
{
    if ops.len() > 0 {
        lemma_over_holds_nothing(limit, ops.drop_last());
    }
}

/// The resolver's cache: a flat list of objects, at most one for each
/// URL. Objects refer to one another by URL only, so a cycle of
/// references is no cycle in the cache.
pub struct ObjectCache {
    entries: Vec<CachedObject>,
}

/// The URLs of a run of objects, in order.
pub open spec fn urls_of(entries: Seq<CachedObject>) -> Seq<Seq<char>> {
    Seq::new(entries.len(), |i: int| entries[i].url@)
}

/// The object that a cache holds for a URL, if it holds one.
pub open spec fn cached_for(entries: Seq<CachedObject>, url: Seq<char>) -> Option<CachedObject> {
    if urls_of(entries).contains(url) {
        Some(entries[urls_of(entries).index_of(url)])
    } else {
        None
    }
}

impl ObjectCache {
    /// The objects in the cache.
    pub closed spec fn entries(&self) -> Seq<CachedObject> {
        self.entries@
    }

    /// No URL has two objects.
    pub open spec fn wf(&self) -> bool {
        urls_of(self.entries()).no_duplicates()
    }

    /// The object held for a URL, if there is one.
    pub open spec fn at(&self, url: Seq<char>) -> Option<CachedObject> {
        cached_for(self.entries(), url)
    }

    /// An empty cache.
    pub fn new() -> (r: ObjectCache)
        ensures
            r.wf(),
            r.entries().len() == 0,
    {
        ObjectCache { entries: Vec::new() }
    }

    /// How many objects the cache holds.
    pub fn len(&self) -> (r: usize)
        ensures
            r == self.entries().len(),
    {
        self.entries.len()
    }

    fn position(&self, url: &str) -> (r: Option<usize>)
        ensures
            match r {
                Some(i) => i < self.entries().len() && urls_of(self.entries())[i as int] == url@,
                None => !urls_of(self.entries()).contains(url@),
            },
    {
        let mut i: usize = 0;
        while i < self.entries.len()
            invariant
                i <= self.entries.len(),
                forall|k: int| 0 <= k < i ==> #[trigger] urls_of(self.entries@)[k] != url@,
            decreases self.entries.len() - i,
        {
            if str_eq(self.entries[i].url.as_str(), url) {
                return Some(i);
            }
            i += 1;
        }
        None
    }

    /// Looks a URL up.
    pub fn get(&self, url: &str) -> (r: Option<&CachedObject>)
        requires
            self.wf(),
        ensures
            (match r {
                Some(object) => Some(*object),
                None => None,
            }) == self.at(url@),
    {
        match self.position(url) {
            Some(i) => {
                proof {
                    lemma_cached_for_unique(self.entries(), i as int);
                }
                Some(&self.entries[i])
            },
            None => None,
        }
    }

    /// Decides where the object behind `url` is taken from, with the
    /// cache consulted for it.
    pub fn plan(&self, url: &str, local_instance: &str, now: i64) -> (r: ResolvePlan)
        requires
            self.wf(),
        ensures
            r == resolve_plan(url_domain(url@), local_instance@, self.at(url@), now as int),
    {
        plan_resolve(url, local_instance, self.get(url), now)
    }

    /// Stores an object under its URL, in place of the one that was
    /// stored under it before. Every other URL keeps its object.
    pub fn put(&mut self, object: CachedObject)
        requires
            old(self).wf(),
        ensures
            final(self).wf(),
            final(self).at(object.url@) == Some(object),
            forall|url: Seq<char>| url != object.url@ ==> final(self).at(url) == old(self).at(url),
            final(self).entries().len() == old(self).entries().len() + (if old(self).at(
                object.url@,
            ) is Some {
                0int
            } else {
                1int
            }),
    {
        let ghost before = self.entries@;
        let ghost key = object.url@;
        match self.position(object.url.as_str()) {
            Some(i) => {
                self.entries.set(i, object);
                proof {
                    let after = self.entries@;
                    assert(urls_of(after) =~= urls_of(before));
                    lemma_cached_for_unique(after, i as int);
                    assert forall|url: Seq<char>| url != key implies cached_for(after, url)
                        == cached_for(before, url) by {
                        if urls_of(before).contains(url) {
                            let k = urls_of(before).index_of(url);
                            assert(k != i);
                            assert(after[k] == before[k]);
                        }
                    }
                }
            },
            None => {
                self.entries.push(object);
                proof {
                    let after = self.entries@;
                    let last = before.len() as int;
                    assert(urls_of(after) =~= urls_of(before).push(key));
                    assert forall|a: int, b: int|
                        0 <= a < after.len() && 0 <= b < after.len() && a != b implies urls_of(
                        after,
                    )[a] != urls_of(after)[b] by {
                        if a < last && b < last {
                            assert(urls_of(before)[a] != urls_of(before)[b]);
                        } else if a < last {
                            assert(urls_of(before).contains(urls_of(before)[a]));
                        } else {
                            assert(urls_of(before).contains(urls_of(before)[b]));
                        }
                    }
                    lemma_cached_for_unique(after, last);
                    assert forall|url: Seq<char>| url != key implies cached_for(after, url)
                        == cached_for(before, url) by {
                        if urls_of(before).contains(url) {
                            let k = urls_of(before).index_of(url);
                            assert(urls_of(after)[k] == url);
                            lemma_cached_for_unique(after, k);
                            assert(after[k] == before[k]);
                        } else if urls_of(after).contains(url) {
                            let k = urls_of(after).index_of(url);
                            assert(k < last);
                            assert(urls_of(before)[k] == url);
                        }
                    }
                }
            },
        }
    }
}

/// In a list without repeated URLs, the object found for the URL of an
/// entry is that entry.
pub proof fn lemma_cached_for_unique(entries: Seq<CachedObject>, i: int)
    requires
        urls_of(entries).no_duplicates(),
        0 <= i < entries.len(),
    ensures
        cached_for(entries, urls_of(entries)[i]) == Some(entries[i]),
{
    let urls = urls_of(entries);
    assert(urls.contains(urls[i]));
    let j = urls.index_of(urls[i]);
    assert(urls[j] == urls[i]);
}

} // verus!
