//! Communities as they travel between instances: the group object of
//! the protocol, the community record of storage, and the conversion in
//! both directions.

use vstd::prelude::*;
use crate::newtypes::{CommunityId, InstanceId};
use crate::text::texts_of;

verus! {

/// Who gets to see a community.
#[derive(Debug, Clone, Copy, PartialEq, Eq, Structural)]
pub enum CommunityVisibility {
    Public,
    Unlisted,
    Private,
}

/// The kind of an actor.
#[derive(Debug, Clone, Copy, PartialEq, Eq, Structural)]
pub enum ActorType {
    Site,
    Community,
    Person,
}

/// The kind of an actor that a group is attributed to.
#[derive(Debug, Clone, Copy, PartialEq, Eq, Structural)]
pub enum PersonOrGroupType {
    Person,
    Group,
}

/// One attribution as some servers list them.
#[derive(Debug, Clone)]
pub struct AttributedToPeertube {
    pub kind: PersonOrGroupType,
    pub id: String,
}

/// Who moderates a group: the URL of a collection of moderators, or a
/// list of actors.
#[derive(Debug, Clone)]
pub enum AttributedTo {
    Lemmy(String),
    Peertube(Vec<AttributedToPeertube>),
}

/// The collection of a group's moderators.
#[derive(Debug, Clone)]
pub struct GroupModerators {
    pub id: String,
    pub ordered_items: Vec<String>,
}

/// The text of an object in its source form.
#[derive(Debug, Clone)]
pub struct Source {
    pub content: String,
}

/// An image by its URL.
#[derive(Debug, Clone)]
pub struct ImageObject {
    pub url: String,
}

/// The endpoints that an instance offers to all its actors.
#[derive(Debug, Clone)]
pub struct Endpoints {
    pub shared_inbox: String,
}

/// The key with which an actor signs.
#[derive(Debug, Clone)]
pub struct PublicKey {
    pub id: String,
    pub owner: String,
    pub public_key_pem: String,
}

/// A community as the protocol carries it. URLs are kept as text and
/// times as seconds since the epoch.
#[derive(Debug, Clone)]
pub struct Group {
    pub id: String,
    pub preferred_username: String,
    pub name: Option<String>,
    pub content: Option<String>,
    pub source: Option<Source>,
    pub summary: Option<String>,
    pub media_type_html: bool,
    pub icon: Option<ImageObject>,
    pub image: Option<ImageObject>,
    pub sensitive: Option<bool>,
    pub featured: Option<String>,
    pub inbox: String,
    pub outbox: String,
    pub followers: Option<String>,
    pub endpoints: Option<Endpoints>,
    pub public_key: PublicKey,
    pub language: Vec<String>,
    pub published: Option<i64>,
    pub updated: Option<i64>,
    pub posting_restricted_to_mods: Option<bool>,
    pub attributed_to: Option<AttributedTo>,
    pub manually_approves_followers: Option<bool>,
    pub discoverable: Option<bool>,
}

/// A community as storage keeps it.
#[derive(Debug, Clone)]
pub struct Community {
    pub id: CommunityId,
    pub name: String,
    pub title: String,
    pub sidebar: Option<String>,
    pub description: Option<String>,
    pub icon: Option<String>,
    pub banner: Option<String>,
    pub nsfw: bool,
    pub ap_id: String,
    pub local: bool,
    pub deleted: bool,
    pub removed: bool,
    pub inbox_url: String,
    pub followers_url: Option<String>,
    pub public_key: String,
    pub private_key: Option<String>,
    pub published: i64,
    pub updated: Option<i64>,
    pub last_refreshed_at: i64,
    pub posting_restricted_to_mods: bool,
    pub visibility: CommunityVisibility,
}

/// What is written when a community is stored for the first time or
/// stored again after a fetch.
#[derive(Debug, Clone)]
pub struct CommunityInsertForm {
    pub instance_id: InstanceId,
    pub name: String,
    pub title: String,
    pub public_key: String,
    pub published: Option<i64>,
    pub updated: Option<i64>,
    pub deleted: Option<bool>,
    pub removed: Option<bool>,
    pub nsfw: Option<bool>,
    pub ap_id: Option<String>,
    pub local: Option<bool>,
    pub last_refreshed_at: Option<i64>,
    pub icon: Option<String>,
    pub banner: Option<String>,
    pub sidebar: Option<String>,
    pub description: Option<String>,
    pub followers_url: Option<String>,
    pub inbox_url: Option<String>,
    pub moderators_url: Option<String>,
    pub posting_restricted_to_mods: Option<bool>,
    pub featured_url: Option<String>,
    pub visibility: Option<CommunityVisibility>,
}

/// The changes to write to a stored community; `None` leaves a field as it is.
#[derive(Debug, Clone, Copy)]
pub struct CommunityUpdateForm {
    pub deleted: Option<bool>,
    pub removed: Option<bool>,
}

/// Work that adds to a freshly stored community what is good to have and
/// not needed: it runs apart from the resolution that stored the
/// community, with a fetch budget of its own, and its failures are of no
/// consequence.
#[derive(Debug, Clone)]
pub enum EnrichmentTask {
    /// Fetch the posts of the community.
    FetchOutbox(String),
    /// Fetch the followers collection.
    FetchFollowers(String),
    /// Fetch the featured posts.
    FetchFeatured(String),
    /// Fetch the collection of moderators.
    FetchModerators(String),
    /// Make these persons the moderators.
    SetModerators(Vec<String>),
}

/// What has to happen to take a fetched group in: the record to store,
/// the time to store it under, its languages, and the enrichment to
/// start afterwards.
#[derive(Debug, Clone)]
pub struct CommunityImport {
    pub form: CommunityInsertForm,
    pub timestamp: i64,
    pub languages: Vec<String>,
    pub enrichment: Vec<EnrichmentTask>,
}

/// What the rest of the system worked out for a fetched group before it
/// is stored.
#[derive(Debug, Clone)]
pub struct GroupContext {
    /// The instance that the group lives on.
    pub instance_id: InstanceId,
    /// The sidebar text after filtering and link rewriting.
    pub sidebar: Option<String>,
    /// The icon's link after proxying.
    pub icon: Option<String>,
    /// The banner's link after proxying.
    pub banner: Option<String>,
    /// The summary, cut to the length that storage takes.
    pub description: Option<String>,
    /// The site takes no sensitive content and the group is sensitive.
    pub nsfw_refused: bool,
    /// Seconds since the epoch.
    pub now: i64,
}

/// The visibility that a group asks for: private where followers need
/// approval, unlisted where it does not want to be found, public otherwise.
pub open spec fn visibility_of(
    manually_approves_followers: Option<bool>,
    discoverable: Option<bool>,
) -> CommunityVisibility {
    if manually_approves_followers == Some(true) {
        CommunityVisibility::Private
    } else if discoverable == Some(false) {
        CommunityVisibility::Unlisted
    } else {
        CommunityVisibility::Public
    }
}

/// Computes the visibility that a group asks for.
pub fn group_visibility(manually_approves_followers: Option<bool>, discoverable: Option<bool>) -> (r:
    CommunityVisibility)
    ensures
        r == visibility_of(manually_approves_followers, discoverable),
{
    let approves = match manually_approves_followers {
        Some(b) => b,
        None => false,
    };
    let findable = match discoverable {
        Some(b) => b,
        None => true,
    };
    if approves {
        CommunityVisibility::Private
    } else if !findable {
        CommunityVisibility::Unlisted
    } else {
        CommunityVisibility::Public
    }
}

/// The URL of the moderators collection, where the attribution is one.
pub open spec fn moderators_url_of(attributed_to: Option<AttributedTo>) -> Option<String> {
    match attributed_to {
        Some(AttributedTo::Lemmy(url)) => Some(url),
        _ => None,
    }
}

/// The inbox that a group is reached at: the shared inbox of its
/// instance where it names one, its own inbox otherwise.
pub open spec fn inbox_of(endpoints: Option<Endpoints>, inbox: String) -> String {
    match endpoints {
        Some(e) => e.shared_inbox,
        None => inbox,
    }
}

/// The time a fetched group is stored under: its last update, else its
/// publication, else now.
pub open spec fn timestamp_of(updated: Option<i64>, published: Option<i64>, now: i64) -> i64 {
    match updated {
        Some(t) => t,
        None => match published {
            Some(t) => t,
            None => now,
        },
    }
}

/// The mathematical value of an enrichment task.
pub enum EnrichmentTaskView {
    FetchOutbox(Seq<char>),
    FetchFollowers(Seq<char>),
    FetchFeatured(Seq<char>),
    FetchModerators(Seq<char>),
    SetModerators(Seq<Seq<char>>),
}

impl View for EnrichmentTask {
    type V = EnrichmentTaskView;

    open spec fn view(&self) -> EnrichmentTaskView {
        match self {
            EnrichmentTask::FetchOutbox(url) => EnrichmentTaskView::FetchOutbox(url@),
            EnrichmentTask::FetchFollowers(url) => EnrichmentTaskView::FetchFollowers(url@),
            EnrichmentTask::FetchFeatured(url) => EnrichmentTaskView::FetchFeatured(url@),
            EnrichmentTask::FetchModerators(url) => EnrichmentTaskView::FetchModerators(url@),
            EnrichmentTask::SetModerators(ids) => EnrichmentTaskView::SetModerators(texts_of(ids@)),
        }
    }
}

/// The values of a list of tasks, in order.
pub open spec fn tasks_view(tasks: Seq<EnrichmentTask>) -> Seq<EnrichmentTaskView> {
    Seq::new(tasks.len(), |i: int| tasks[i]@)
}

/// The ids of the persons among the attributions, in order.
pub open spec fn persons_among(list: Seq<AttributedToPeertube>) -> Seq<Seq<char>>
    decreases list.len(),
{
    if list.len() == 0 {
        Seq::empty()
    } else if list.last().kind == PersonOrGroupType::Person {
        persons_among(list.drop_last()).push(list.last().id@)
    } else {
        persons_among(list.drop_last())
    }
}

/// The enrichment for a group: its outbox, then its followers and its
/// featured posts where it names them, then its moderators.
pub open spec fn enrichment_of(group: Group) -> Seq<EnrichmentTaskView> {
    let first = seq![EnrichmentTaskView::FetchOutbox(group.outbox@)];
    let second = match group.followers {
        Some(url) => first.push(EnrichmentTaskView::FetchFollowers(url@)),
        None => first,
    };
    let third = match group.featured {
        Some(url) => second.push(EnrichmentTaskView::FetchFeatured(url@)),
        None => second,
    };
    match group.attributed_to {
        Some(AttributedTo::Lemmy(url)) => third.push(EnrichmentTaskView::FetchModerators(url@)),
        Some(AttributedTo::Peertube(list)) => third.push(
            EnrichmentTaskView::SetModerators(persons_among(list@)),
        ),
        None => third,
    }
}

/// The record to store for a fetched group.
pub open spec fn form_of(group: Group, context: GroupContext) -> CommunityInsertForm {
    CommunityInsertForm {
        instance_id: context.instance_id,
        name: group.preferred_username,
        title: match group.name {
            Some(name) => name,
            None => group.preferred_username,
        },
        public_key: group.public_key.public_key_pem,
        published: group.published,
        updated: group.updated,
        deleted: Some(false),
        removed: if context.nsfw_refused {
            Some(true)
        } else {
            None
        },
        nsfw: Some(group.sensitive == Some(true)),
        ap_id: Some(group.id),
        local: Some(false),
        last_refreshed_at: Some(context.now),
        icon: context.icon,
        banner: context.banner,
        sidebar: context.sidebar,
        description: context.description,
        followers_url: group.followers,
        inbox_url: Some(inbox_of(group.endpoints, group.inbox)),
        moderators_url: moderators_url_of(group.attributed_to),
        posting_restricted_to_mods: group.posting_restricted_to_mods,
        featured_url: group.featured,
        visibility: Some(visibility_of(group.manually_approves_followers, group.discoverable)),
    }
}

fn clone_text(text: &Option<String>) -> (r: Option<String>)
    ensures
        r == *text,
{
    match text {
        Some(t) => Some(t.clone()),
        None => None,
    }
}

/// Picks the persons among the attributions.
pub fn persons_of(list: &Vec<AttributedToPeertube>) -> (r: Vec<String>)
    ensures
        texts_of(r@) == persons_among(list@),
{
    let mut out: Vec<String> = Vec::new();
    let mut i: usize = 0;
    assert(list@.take(0) =~= Seq::<AttributedToPeertube>::empty());
    assert(texts_of(out@) =~= persons_among(list@.take(0)));
    while i < list.len()
        invariant
            i <= list.len(),
            texts_of(out@) == persons_among(list@.take(i as int)),
        decreases list.len() - i,
    {
        let ghost shown = texts_of(out@);
        assert(list@.take(i as int + 1).drop_last() =~= list@.take(i as int));
        assert(list@.take(i as int + 1).last() == list@[i as int]);
        if list[i].kind == PersonOrGroupType::Person {
            out.push(list[i].id.clone());
            assert(texts_of(out@) =~= shown.push(list@[i as int].id@));
        }
        i += 1;
    }
    assert(list@.take(list.len() as int) =~= list@);
    out
}

/// Lists the enrichment to start once a fetched group is stored.
pub fn enrichment_for(group: &Group) -> (r: Vec<EnrichmentTask>)
    ensures
        tasks_view(r@) == enrichment_of(*group),
{
    let mut tasks: Vec<EnrichmentTask> = Vec::new();
    tasks.push(EnrichmentTask::FetchOutbox(group.outbox.clone()));
    if let Some(url) = &group.followers {
        tasks.push(EnrichmentTask::FetchFollowers(url.clone()));
    }
    if let Some(url) = &group.featured {
        tasks.push(EnrichmentTask::FetchFeatured(url.clone()));
    }
    match &group.attributed_to {
        Some(AttributedTo::Lemmy(url)) => {
            tasks.push(EnrichmentTask::FetchModerators(url.clone()));
        },
        Some(AttributedTo::Peertube(list)) => {
            let persons = persons_of(list);
            tasks.push(EnrichmentTask::SetModerators(persons));
        },
        None => {},
    }
    assert(tasks_view(tasks@) =~= enrichment_of(*group));
    tasks
}

/// A community as this instance federates it.
#[derive(Debug, Clone)]
pub struct ApubCommunity(pub Community);

impl From<Community> for ApubCommunity {
    fn from(c: Community) -> (r: ApubCommunity) {
        ApubCommunity(c)
    }
}

impl vstd::std_specs::convert::FromSpecImpl<Community> for ApubCommunity {
    open spec fn obeys_from_spec() -> bool {
        true
    }

    open spec fn from_spec(c: Community) -> ApubCommunity {
        ApubCommunity(c)
    }
}

/// What the rest of the system supplies when a community is sent out.
#[derive(Debug, Clone)]
pub struct GroupExtras {
    /// The languages of the community.
    pub language: Vec<String>,
    /// The sidebar rendered as HTML, where there is a sidebar.
    pub sidebar_html: Option<String>,
    /// The URL of the featured posts.
    pub featured: String,
    /// The URL of the outbox.
    pub outbox: String,
    /// The URL of the moderators collection.
    pub moderators: String,
}

/// The URL of a collection of an actor: the actor's id, a slash, and
/// the name of the collection.
pub open spec fn collection_url(ap_id: Seq<char>, name: Seq<char>) -> Seq<char> {
    ap_id + "/"@ + name
}

/// The URL of the featured posts of a community.
pub fn generate_featured_url(ap_id: &str) -> (r: String)
    ensures
        r@ == collection_url(ap_id@, "featured"@),
{
    ap_id.to_owned().concat("/").concat("featured")
}

/// The URL of the outbox of a community.
pub fn generate_outbox_url(ap_id: &str) -> (r: String)
    ensures
        r@ == collection_url(ap_id@, "outbox"@),
{
    ap_id.to_owned().concat("/").concat("outbox")
}

/// The URL of the collection of moderators of a community.
pub fn generate_moderators_url(ap_id: &str) -> (r: String)
    ensures
        r@ == collection_url(ap_id@, "moderators"@),
{
    ap_id.to_owned().concat("/").concat("moderators")
}

impl GroupExtras {
    /// What is supplied for the community with this id: its languages,
    /// its sidebar as HTML, and the URLs of its collections.
    pub fn for_community(ap_id: &str, language: Vec<String>, sidebar_html: Option<String>) -> (r:
        GroupExtras)
        ensures
            r.language == language,
            r.sidebar_html == sidebar_html,
            r.featured@ == collection_url(ap_id@, "featured"@),
            r.outbox@ == collection_url(ap_id@, "outbox"@),
            r.moderators@ == collection_url(ap_id@, "moderators"@),
    {
        GroupExtras {
            language,
            sidebar_html,
            featured: generate_featured_url(ap_id),
            outbox: generate_outbox_url(ap_id),
            moderators: generate_moderators_url(ap_id),
        }
    }
}

/// The id of an actor's signing key.
pub open spec fn main_key_id(owner: Seq<char>) -> Seq<char> {
    owner + "#main-key"@
}

/// The group that stands for a community on the wire, up to the id of
/// its key, which is a new text.
pub open spec fn group_of(community: Community, extras: GroupExtras, key_id: String) -> Group {
    Group {
        id: community.ap_id,
        preferred_username: community.name,
        name: Some(community.title),
        content: if community.sidebar is Some {
            extras.sidebar_html
        } else {
            None
        },
        source: match community.sidebar {
            Some(text) => Some(Source { content: text }),
            None => None,
        },
        summary: community.description,
        media_type_html: community.sidebar is Some,
        icon: match community.icon {
            Some(url) => Some(ImageObject { url }),
            None => None,
        },
        image: match community.banner {
            Some(url) => Some(ImageObject { url }),
            None => None,
        },
        sensitive: Some(community.nsfw),
        featured: Some(extras.featured),
        inbox: community.inbox_url,
        outbox: extras.outbox,
        followers: community.followers_url,
        endpoints: None,
        public_key: PublicKey {
            id: key_id,
            owner: community.ap_id,
            public_key_pem: community.public_key,
        },
        language: extras.language,
        published: Some(community.published),
        updated: community.updated,
        posting_restricted_to_mods: Some(community.posting_restricted_to_mods),
        attributed_to: Some(AttributedTo::Lemmy(extras.moderators)),
        manually_approves_followers: Some(community.visibility == CommunityVisibility::Private),
        discoverable: Some(community.visibility != CommunityVisibility::Unlisted),
    }
}

impl ApubCommunity {
    /// When the community was last fetched.
    pub fn last_refreshed_at(&self) -> (r: Option<i64>)
        ensures
            r == Some(self.0.last_refreshed_at),
    {
        Some(self.0.last_refreshed_at)
    }

    /// Marks the community as deleted: the change to write, and where.
    pub fn delete(self) -> (r: (CommunityId, CommunityUpdateForm))
        ensures
            r.0 == self.0.id,
            r.1.deleted == Some(true),
            r.1.removed is None,
    {
        (self.0.id, CommunityUpdateForm { deleted: Some(true), removed: None })
    }

    /// Turns the community into the group that is sent to other
    /// instances.
    pub fn into_json(self, extras: GroupExtras) -> (r: Group)
        ensures
            r == group_of(self.0, extras, r.public_key.id),
            r.public_key.id@ == main_key_id(self.0.ap_id@),
    {
        let community = self.0;
        let has_sidebar = community.sidebar.is_some();
        let key_id = community.ap_id.clone().concat("#main-key");
        let owner = community.ap_id.clone();
        Group {
            id: community.ap_id,
            preferred_username: community.name,
            name: Some(community.title),
            content: if has_sidebar {
                extras.sidebar_html
            } else {
                None
            },
            source: match community.sidebar {
                Some(text) => Some(Source { content: text }),
                None => None,
            },
            summary: community.description,
            media_type_html: has_sidebar,
            icon: match community.icon {
                Some(url) => Some(ImageObject { url }),
                None => None,
            },
            image: match community.banner {
                Some(url) => Some(ImageObject { url }),
                None => None,
            },
            sensitive: Some(community.nsfw),
            featured: Some(extras.featured),
            inbox: community.inbox_url,
            outbox: extras.outbox,
            followers: community.followers_url,
            endpoints: None,
            public_key: PublicKey { id: key_id, owner, public_key_pem: community.public_key },
            language: extras.language,
            published: Some(community.published),
            updated: community.updated,
            posting_restricted_to_mods: Some(community.posting_restricted_to_mods),
            attributed_to: Some(AttributedTo::Lemmy(extras.moderators)),
            manually_approves_followers: Some(
                community.visibility == CommunityVisibility::Private,
            ),
            discoverable: Some(community.visibility != CommunityVisibility::Unlisted),
        }
    }

    /// Turns a fetched group into what is stored for it: a remote,
    /// undeleted community, reached at the shared inbox where the group
    /// names one, titled by its name or else its user name, removed at
    /// once where the site refuses its content; with the time to store it
    /// under and the enrichment to start afterwards.
    pub fn from_json(group: Group, context: GroupContext) -> (r: CommunityImport)
        ensures
            r.form == form_of(group, context),
            r.timestamp == timestamp_of(group.updated, group.published, context.now),
            r.languages == group.language,
            tasks_view(r.enrichment@) == enrichment_of(group),
    {
        let enrichment = enrichment_for(&group);
        let visibility = group_visibility(group.manually_approves_followers, group.discoverable);
        let timestamp = match group.updated {
            Some(t) => t,
            None => match group.published {
                Some(t) => t,
                None => context.now,
            },
        };
        let title = match group.name {
            Some(name) => name,
            None => group.preferred_username.clone(),
        };
        let moderators_url = match group.attributed_to {
            Some(AttributedTo::Lemmy(url)) => Some(url),
            _ => None,
        };
        let inbox_url = match group.endpoints {
            Some(e) => e.shared_inbox,
            None => group.inbox,
        };
        let form = CommunityInsertForm {
            instance_id: context.instance_id,
            name: group.preferred_username,
            title,
            public_key: group.public_key.public_key_pem,
            published: group.published,
            updated: group.updated,
            deleted: Some(false),
            removed: if context.nsfw_refused {
                Some(true)
            } else {
                None
            },
            nsfw: Some(
                match group.sensitive {
                    Some(b) => b,
                    None => false,
                },
            ),
            ap_id: Some(group.id),
            local: Some(false),
            last_refreshed_at: Some(context.now),
            icon: context.icon,
            banner: context.banner,
            sidebar: context.sidebar,
            description: context.description,
            followers_url: group.followers,
            inbox_url: Some(inbox_url),
            moderators_url,
            posting_restricted_to_mods: group.posting_restricted_to_mods,
            featured_url: group.featured,
            visibility: Some(visibility),
        };
        CommunityImport { form, timestamp, languages: group.language, enrichment }
    }

    /// The id of the community as an actor.
    pub fn id(&self) -> (r: &str)
        ensures
            r@ == self.0.ap_id@,
    {
        self.0.ap_id.as_str()
    }

    /// The key that the community's signatures are checked with.
    pub fn public_key_pem(&self) -> (r: &str)
        ensures
            r@ == self.0.public_key@,
    {
        self.0.public_key.as_str()
    }

    /// The key that the community signs with, where this instance holds it.
    pub fn private_key_pem(&self) -> (r: Option<String>)
        ensures
            r == self.0.private_key,
    {
        clone_text(&self.0.private_key)
    }

    /// The inbox of the community.
    pub fn inbox(&self) -> (r: &str)
        ensures
            r@ == self.0.inbox_url@,
    {
        self.0.inbox_url.as_str()
    }

    /// A community has no shared inbox of its own.
    pub fn shared_inbox(&self) -> (r: Option<String>)
        ensures
            r is None,
    {
        None
    }

    /// A community is an actor of the community kind.
    pub fn actor_type(&self) -> (r: ActorType)
        ensures
            r == ActorType::Community,
    {
        ActorType::Community
    }
}

} // verus!
