//! The trust policy of an instance: the federation switch and the two domain lists.

use vstd::prelude::*;

verus! {

/// A server instance, known by its domain name.
#[derive(Debug, Clone)]
pub struct Instance {
    pub domain: String,
}

/// The site-wide settings that bear on federation.
#[derive(Debug, Clone, Copy)]
pub struct LocalSite {
    pub federation_enabled: bool,
}

/// One snapshot of the trust policy, as it is read from storage in one piece.
#[derive(Debug, Clone)]
pub struct LocalSiteData {
    pub local_site: Option<LocalSite>,
    pub allowed_instances: Vec<Instance>,
    pub blocked_instances: Vec<Instance>,
}

/// The mathematical value of a policy snapshot.
pub struct TrustPolicy {
    pub federation_enabled: bool,
    pub allowed: Seq<Seq<char>>,
    pub blocked: Seq<Seq<char>>,
}

/// The domain names of a list of instances, in order.
pub open spec fn domains_of(list: Seq<Instance>) -> Seq<Seq<char>> {
    Seq::new(list.len(), |i: int| list[i].domain@)
}

impl View for LocalSiteData {
    type V = TrustPolicy;

    /// A site without settings federates.
    open spec fn view(&self) -> TrustPolicy {
        TrustPolicy {
            federation_enabled: match self.local_site {
                Some(site) => site.federation_enabled,
                None => true,
            },
            allowed: domains_of(self.allowed_instances@),
            blocked: domains_of(self.blocked_instances@),
        }
    }
}

impl LocalSiteData {
    /// Puts the three values read from storage into one snapshot.
    pub fn new(
        local_site: Option<LocalSite>,
        allowed_instances: Vec<Instance>,
        blocked_instances: Vec<Instance>,
    ) -> (r: LocalSiteData)
        ensures
            r.local_site == local_site,
            r.allowed_instances == allowed_instances,
            r.blocked_instances == blocked_instances,
    {
        LocalSiteData { local_site, allowed_instances, blocked_instances }
    }

    /// Whether the site federates at all.
    pub fn federation_enabled(&self) -> (r: bool)
        ensures
            r == self@.federation_enabled,
    {
        match &self.local_site {
            Some(site) => site.federation_enabled,
            None => true,
        }
    }
}

/// How long a loaded snapshot is served, in milliseconds. Short enough
/// for changes of the lists to take effect quickly, long enough to spare
/// storage a read on every activity.
pub const CACHE_DURATION_FEDERATION_MILLIS: u64 = 60000;

/// How long an answer of the API is served from its cache, in milliseconds.
pub const CACHE_DURATION_API_MILLIS: u64 = 1000;

/// How long the largest community is remembered, in milliseconds: one day.
pub const CACHE_DURATION_LARGEST_COMMUNITY_MILLIS: u64 = 86400000;

/// What a caller of the cache has to do.
#[derive(Debug, Clone, Copy, PartialEq, Eq, Structural)]
pub enum CacheAnswer {
    /// A fresh snapshot is there: use it.
    Hit,
    /// Nothing fresh is there and nobody is loading: load from storage
    /// and report how the load ended. The number is that of the load.
    Load(u64),
    /// Nothing fresh is there and a load is under way: wait for the load
    /// of this number to end, then ask what came of it.
    Wait(u64),
}

/// What a caller has to do who waited for a load.
#[derive(Debug, Clone, Copy, PartialEq, Eq, Structural)]
pub enum WaitAnswer {
    /// The load it waited for is still under way.
    KeepWaiting,
    /// A fresh snapshot is there: use it.
    Serve,
    /// The load it waited for failed: fail with the same failure.
    Fail,
    /// The load ended and left nothing fresh: ask the cache anew.
    AskAgain,
}

/// The cache of the trust policy: at most one snapshot, the time it was
/// loaded at, whether a load is under way, and how the last load ended.
/// Loads are numbered, so that a caller who waited can ask for the end of
/// the very load it waited for. Times are readings, in milliseconds, of
/// one clock that the callers share; a snapshot is not served at a time
/// before it was loaded.
pub struct PolicyCache {
    ttl: u64,
    entry: Option<LocalSiteData>,
    loaded_at: u64,
    loading: bool,
    started: u64,
    ended: u64,
    failure: Option<String>,
}

/// The mathematical value of the cache.
pub struct PolicyCacheView {
    pub ttl: nat,
    pub entry: Option<LocalSiteData>,
    pub loaded_at: nat,
    pub loading: bool,
    /// The number of the load that was started last.
    pub started: nat,
    /// The number of the load that ended last.
    pub ended: nat,
    /// What the load that ended last failed with, if it failed.
    pub failure: Option<Seq<char>>,
}

/// The snapshot is served at `now`: there is one, and less than the time
/// to live has passed since it was loaded.
pub open spec fn is_fresh(v: PolicyCacheView, now: nat) -> bool {
    v.entry is Some && v.loaded_at <= now && now - v.loaded_at < v.ttl
}

/// The number of the load after the load `n`. Numbers start over after
/// the largest.
pub open spec fn next_load(n: nat) -> nat {
    if n >= u64::MAX {
        0
    } else {
        n + 1
    }
}

/// The answer to a caller at `now`.
pub open spec fn answer_at(v: PolicyCacheView, now: nat) -> CacheAnswer {
    if is_fresh(v, now) {
        CacheAnswer::Hit
    } else if v.loading {
        CacheAnswer::Wait(v.started as u64)
    } else {
        CacheAnswer::Load(next_load(v.started) as u64)
    }
}

/// The cache after it has answered a caller at `now`: the caller who is
/// told to load is the one load under way.
pub open spec fn asked_at(v: PolicyCacheView, now: nat) -> PolicyCacheView {
    if answer_at(v, now) is Load {
        PolicyCacheView { loading: true, started: next_load(v.started), ..v }
    } else {
        v
    }
}

/// The cache after the load under way has ended at `now`, with a
/// snapshot or with a failure. A failure leaves nothing to serve, and is
/// kept for those who waited.
pub open spec fn after_load(
    v: PolicyCacheView,
    outcome: Result<LocalSiteData, Seq<char>>,
    now: nat,
) -> PolicyCacheView {
    PolicyCacheView {
        entry: match outcome {
            Ok(data) => Some(data),
            Err(_) => None,
        },
        failure: match outcome {
            Ok(_) => None,
            Err(message) => Some(message),
        },
        loaded_at: now,
        loading: false,
        ended: v.started,
        ..v
    }
}

/// The answer at `now` to a caller who waited for the load `ticket`.
/// While that load is under way the caller waits on. If that load was
/// the last to end and it failed, the caller fails. Otherwise the caller
/// is served what is fresh, or asks anew where nothing is.
pub open spec fn wait_answer(v: PolicyCacheView, ticket: nat, now: nat) -> WaitAnswer {
    if v.loading && v.started == ticket {
        WaitAnswer::KeepWaiting
    } else if v.ended == ticket && v.failure is Some {
        WaitAnswer::Fail
    } else if is_fresh(v, now) {
        WaitAnswer::Serve
    } else {
        WaitAnswer::AskAgain
    }
}

/// The mathematical value of how a load ended.
pub open spec fn outcome_of(loaded: Result<LocalSiteData, String>) -> Result<
    LocalSiteData,
    Seq<char>,
> {
    match loaded {
        Ok(data) => Ok(data),
        Err(message) => Err(message@),
    }
}

impl View for PolicyCache {
    type V = PolicyCacheView;

    closed spec fn view(&self) -> PolicyCacheView {
        PolicyCacheView {
            ttl: self.ttl as nat,
            entry: self.entry,
            loaded_at: self.loaded_at as nat,
            loading: self.loading,
            started: self.started as nat,
            ended: self.ended as nat,
            failure: match self.failure {
                Some(message) => Some(message@),
                None => None,
            },
        }
    }
}

impl PolicyCache {
    /// An empty cache that serves a snapshot for `ttl_millis` milliseconds.
    pub fn new(ttl_millis: u64) -> (r: PolicyCache)
        ensures
            r@ == (PolicyCacheView {
                ttl: ttl_millis as nat,
                entry: None,
                loaded_at: 0,
                loading: false,
                started: 0,
                ended: 0,
                failure: None,
            }),
    {
        PolicyCache {
            ttl: ttl_millis,
            entry: None,
            loaded_at: 0,
            loading: false,
            started: 0,
            ended: 0,
            failure: None,
        }
    }

    fn fresh(&self, now: u64) -> (r: bool)
        ensures
            r == is_fresh(self@, now as nat),
    {
        self.entry.is_some() && self.loaded_at <= now && now - self.loaded_at < self.ttl
    }

    /// The snapshot, if a fresh one is there. A snapshot past its time
    /// to live is not handed out.
    pub fn lookup(&self, now: u64) -> (r: Option<&LocalSiteData>)
        ensures
            r is Some <==> is_fresh(self@, now as nat),
            r matches Some(data) ==> self@.entry == Some(*data),
    {
        if self.fresh(now) {
            self.entry.as_ref()
        } else {
            None
        }
    }

    /// What the load that ended last failed with, if it failed.
    pub fn failure(&self) -> (r: Option<&str>)
        ensures
            (match r {
                Some(message) => Some(message@),
                None => None,
            }) == self@.failure,
    {
        match &self.failure {
            Some(message) => Some(message.as_str()),
            None => None,
        }
    }

    /// Answers a caller at `now`. Of all callers that find nothing fresh,
    /// one is told to load; the others, until that load has ended, are
    /// told to wait for it.
    pub fn get(&mut self, now: u64) -> (r: CacheAnswer)
        ensures
            r == answer_at(old(self)@, now as nat),
            final(self)@ == asked_at(old(self)@, now as nat),
    {
        if self.fresh(now) {
            CacheAnswer::Hit
        } else if self.loading {
            CacheAnswer::Wait(self.started)
        } else {
            self.loading = true;
            self.started = if self.started == u64::MAX {
                0
            } else {
                self.started + 1
            };
            CacheAnswer::Load(self.started)
        }
    }

    /// Reports the end of the load under way at `now`. A snapshot is
    /// served from now on. A failure is served to nobody: it is kept for
    /// those who waited for this load, and the next caller loads again.
    pub fn finish_load(&mut self, loaded: Result<LocalSiteData, String>, now: u64)
        ensures
            final(self)@ == after_load(old(self)@, outcome_of(loaded), now as nat),
    {
        match loaded {
            Ok(data) => {
                self.entry = Some(data);
                self.failure = None;
            },
            Err(message) => {
                self.entry = None;
                self.failure = Some(message);
            },
        }
        self.loaded_at = now;
        self.loading = false;
        self.ended = self.started;
    }

    /// Answers at `now` a caller who was told to wait for the load
    /// `ticket`: to wait on, to use the snapshot, to fail with the
    /// failure of that load, or to ask anew.
    pub fn after_wait(&self, ticket: u64, now: u64) -> (r: WaitAnswer)
        ensures
            r == wait_answer(self@, ticket as nat, now as nat),
    {
        if self.loading && self.started == ticket {
            WaitAnswer::KeepWaiting
        } else if self.ended == ticket && self.failure.is_some() {
            WaitAnswer::Fail
        } else if self.fresh(now) {
            WaitAnswer::Serve
        } else {
            WaitAnswer::AskAgain
        }
    }
}

/// The cache after callers have asked at the given times, one after the
/// other, with no load ending in between.
pub open spec fn after_asks(v: PolicyCacheView, times: Seq<nat>) -> PolicyCacheView
    decreases times.len(),
{
    if times.len() == 0 {
        v
    } else {
        asked_at(after_asks(v, times.drop_last()), times.last())
    }
}

/// How many of those callers were told to load.
pub open spec fn loads_among(v: PolicyCacheView, times: Seq<nat>) -> nat
    decreases times.len(),
{
    if times.len() == 0 {
        0
    } else {
        loads_among(v, times.drop_last()) + (if answer_at(
            after_asks(v, times.drop_last()),
            times.last(),
        ) is Load {
            1nat
        } else {
            0nat
        })
    }
}

/// However many callers ask while no load ends, at most one of them is
/// told to load, and none is while a load is under way.
pub proof fn lemma_one_load_in_flight(v: PolicyCacheView, times: Seq<nat>)
    ensures
        loads_among(v, times) <= 1,
        v.loading ==> loads_among(v, times) == 0,
        loads_among(v, times) == 1 ==> after_asks(v, times).loading,
        v.loading ==> after_asks(v, times) == v,
        after_asks(v, times).entry == v.entry,
        after_asks(v, times).loaded_at == v.loaded_at,
        after_asks(v, times).ttl == v.ttl,
    decreases times.len(),
{
    if times.len() > 0 {
        lemma_one_load_in_flight(v, times.drop_last());
    }
}

/// A snapshot is never served at or after the end of its time to live,
/// neither to a caller who asks nor to one who waited; and after a failed
/// load nothing is served at all.
pub proof fn lemma_no_stale_answer(v: PolicyCacheView, ticket: nat, message: Seq<char>, now: nat)
    ensures
        answer_at(v, now) == CacheAnswer::Hit ==> v.entry is Some && now < v.loaded_at + v.ttl,
        wait_answer(v, ticket, now) == WaitAnswer::Serve ==> v.entry is Some && now < v.loaded_at
            + v.ttl,
        forall|then: nat| answer_at(after_load(v, Err(message), now), then) is Load,
        forall|then: nat| wait_answer(after_load(v, Err(message), now), ticket, then)
            != WaitAnswer::Serve,
{
}

/// When a load fails, every caller who was told to wait for it is told
/// to fail, with the failure of that load, whenever it asks; none of
/// them is told to load or to use a snapshot.
pub proof fn lemma_failed_load_fails_every_waiter(
    v: PolicyCacheView,
    message: Seq<char>,
    now: nat,
    then: nat,
)
    requires
        v.loading,
    ensures
        answer_at(v, now) is Wait ==> answer_at(v, now) == CacheAnswer::Wait(v.started as u64),
        wait_answer(after_load(v, Err(message), now), v.started, then) == WaitAnswer::Fail,
        after_load(v, Err(message), now).failure == Some(message),
        after_load(v, Err(message), now).entry is None,
{
}

/// When a load brings a snapshot, every caller who was told to wait for
/// it is served that snapshot for as long as it is fresh.
pub proof fn lemma_loaded_snapshot_serves_every_waiter(
    v: PolicyCacheView,
    data: LocalSiteData,
    now: nat,
    then: nat,
)
    requires
        v.loading,
        now <= then < now + v.ttl,
    ensures
        wait_answer(after_load(v, Ok(data), now), v.started, then) == WaitAnswer::Serve,
        after_load(v, Ok(data), now).entry == Some(data),
{
}

/// While the load that a caller waits for is under way, the caller is
/// told to wait on.
pub proof fn lemma_waiter_waits_while_loading(v: PolicyCacheView, now: nat)
    requires
        v.loading,
    ensures
        wait_answer(v, v.started, now) == WaitAnswer::KeepWaiting,
{
}

} // verus!
