//! Data the remote service exchanges with the client: server instances,
//! listing scopes, the paged post-listing query, and the request URLs.

use vstd::prelude::*;

verus! {

use vstd::string::StringExecFns;

/// Path prefix every API request shares.
pub const API_URL: &'static str = "/api";

/// Version segment of the API path.
pub const API_VER: &'static str = "/v3";

/// Domain the client falls back to when no instance has been selected.
pub const DEFAULT_DOMAIN: &'static str = "lemmy.ml";

/// A remote server, as the instance-discovery endpoint reports it.
#[derive(Debug, Clone)]
pub struct Instance {
    pub id: u64,
    pub domain: String,
    pub published: String,
    pub updated: Option<String>,
    pub software: Option<String>,
    pub version: Option<String>,
    pub federation_state: Option<FederationState>,
}

/// Federation health bookkeeping for a remote peer. Read-only display data.
#[derive(Debug, Clone)]
pub struct FederationState {
    pub instance_id: u64,
    pub last_successful_id: Option<u64>,
    pub last_successful_published_time: Option<String>,
    pub fail_count: u64,
    pub last_retry: Option<String>,
    pub next_retry: Option<String>,
}

/// The peers of an instance, grouped by federation policy.
#[derive(Debug, Clone)]
pub struct FederatedInstance {
    pub linked: Vec<Instance>,
    pub allowed: Vec<Instance>,
    pub blocked: Vec<Instance>,
}

/// Response of the instance-discovery endpoint.
#[derive(Debug, Clone)]
pub struct Instances {
    pub federated_instances: FederatedInstance,
}

/// Whether two instance records carry the same data, compared by content.
pub open spec fn instance_matches(a: Instance, b: Instance) -> bool {
    &&& a.id == b.id
    &&& a.domain@ == b.domain@
    &&& a.published@ == b.published@
    &&& option_string_matches(a.updated, b.updated)
    &&& option_string_matches(a.software, b.software)
    &&& option_string_matches(a.version, b.version)
    &&& match (a.federation_state, b.federation_state) {
        (Some(x), Some(y)) => federation_state_matches(x, y),
        (None, None) => true,
        _ => false,
    }
}

/// Whether two federation records carry the same data.
pub open spec fn federation_state_matches(a: FederationState, b: FederationState) -> bool {
    &&& a.instance_id == b.instance_id
    &&& a.last_successful_id == b.last_successful_id
    &&& option_string_matches(a.last_successful_published_time, b.last_successful_published_time)
    &&& a.fail_count == b.fail_count
    &&& option_string_matches(a.last_retry, b.last_retry)
    &&& option_string_matches(a.next_retry, b.next_retry)
}

/// Whether two optional strings hold the same text.
pub open spec fn option_string_matches(a: Option<String>, b: Option<String>) -> bool {
    match (a, b) {
        (Some(x), Some(y)) => x@ == y@,
        (None, None) => true,
        _ => false,
    }
}

/// Whether two instance lists carry the same data, element by element.
pub open spec fn instances_match(a: Seq<Instance>, b: Seq<Instance>) -> bool {
    &&& a.len() == b.len()
    &&& forall|i: int| 0 <= i < a.len() ==> instance_matches(a[i], b[i])
}

/// Copies an optional string text for text.
pub fn clone_option_string(text: &Option<String>) -> (copy: Option<String>)
    ensures
        option_string_matches(copy, *text),
{
    match text {
        Some(inner) => Some(inner.clone()),
        None => None,
    }
}

impl FederationState {
    /// A content-equal copy of the record.
    pub fn duplicate(&self) -> (copy: FederationState)
        ensures
            federation_state_matches(copy, *self),
    {
        FederationState {
            instance_id: self.instance_id,
            last_successful_id: self.last_successful_id,
            last_successful_published_time: clone_option_string(
                &self.last_successful_published_time,
            ),
            fail_count: self.fail_count,
            last_retry: clone_option_string(&self.last_retry),
            next_retry: clone_option_string(&self.next_retry),
        }
    }
}

impl Instance {
    /// The text an instance is listed under: its domain.
    pub fn label(&self) -> (name: String)
        ensures
            name@ == self.domain@,
    {
        self.domain.clone()
    }

    /// A content-equal copy of the record.
    pub fn duplicate(&self) -> (copy: Instance)
        ensures
            instance_matches(copy, *self),
    {
        Instance {
            id: self.id,
            domain: self.domain.clone(),
            published: self.published.clone(),
            updated: clone_option_string(&self.updated),
            software: clone_option_string(&self.software),
            version: clone_option_string(&self.version),
            federation_state: match &self.federation_state {
                Some(record) => Some(record.duplicate()),
                None => None,
            },
        }
    }
}

/// A content-equal copy of an instance list.
pub fn duplicate_instances(instances: &Vec<Instance>) -> (copy: Vec<Instance>)
    ensures
        instances_match(copy@, instances@),
{
    let mut copy: Vec<Instance> = Vec::new();
    let n = instances.len();
    for i in 0..n
        invariant
            n == instances@.len(),
            copy@.len() == i,
            forall|k: int| 0 <= k < i ==> instance_matches(#[trigger] copy@[k], instances@[k]),
    {
        copy.push(instances[i].duplicate());
    }
    copy
}

/// Which slice of the network a feed query covers.
#[derive(Debug, Clone, Copy, PartialEq, Eq, Structural)]
pub enum ListingType {
    All,
    Local,
    Subscribed,
}

/// The order a feed query returns posts in.
#[derive(Debug, Clone, Copy, PartialEq, Eq, Structural)]
pub enum SortType {
    Active,
    Hot,
    New,
}

/// A feed scope: listing filter together with sort order. Pagination cursors
/// are only meaningful within the scope that produced them.
#[derive(Debug, Clone, Copy, PartialEq, Eq, Structural)]
pub struct ListingScope {
    pub type_: ListingType,
    pub sort: SortType,
}

/// Why a page fetch failed. Thumbnail failures are not listed here: they are
/// always non-fatal and surface as a card without an image.
#[derive(Debug, Clone, Copy, PartialEq, Eq, Structural)]
pub enum FetchError {
    /// The network was unreachable or the request timed out.
    Transport,
    /// The token was missing, expired or rejected on a scope that needs one.
    Auth,
    /// The response payload could not be decoded.
    Decode,
}

/// Query parameters of the paged post-listing endpoint.
#[derive(Debug, Clone)]
pub struct PostsList {
    pub type_: Option<ListingType>,
    pub sort: Option<SortType>,
    pub page: Option<i64>,
    pub limit: Option<i64>,
    pub community_id: Option<u64>,
    pub community_name: Option<String>,
    pub saved_only: Option<bool>,
    pub liked_only: Option<bool>,
    pub disliked_only: Option<bool>,
    pub page_cursor: Option<String>,
}

/// The fixed number of posts a page asks for.
pub const PAGE_LIMIT: i64 = 20;

impl PostsList {
    /// A local hot-sorted query for one page, continuing from `page_cursor`
    /// when one is given.
    pub fn new(page_cursor: Option<String>) -> (query: PostsList)
        ensures
            query.type_ == Some(ListingType::Local),
            query.sort == Some(SortType::Hot),
            query.page is None,
            query.limit == Some(PAGE_LIMIT),
            query.community_id is None,
            query.community_name is None,
            query.saved_only == Some(false),
            query.liked_only == Some(false),
            query.disliked_only == Some(false),
            query.page_cursor == page_cursor,
    {
        PostsList {
            type_: Some(ListingType::Local),
            sort: Some(SortType::Hot),
            page: None,
            limit: Some(PAGE_LIMIT),
            community_id: None,
            community_name: None,
            saved_only: Some(false),
            liked_only: Some(false),
            disliked_only: Some(false),
            page_cursor,
        }
    }

    /// The query a given scope produces: same fixed page size, the scope's
    /// filter and sort, continuing from `page_cursor` when one is given.
    pub fn for_scope(scope: ListingScope, page_cursor: Option<String>) -> (query: PostsList)
        ensures
            query.type_ == Some(scope.type_),
            query.sort == Some(scope.sort),
            query.page is None,
            query.limit == Some(PAGE_LIMIT),
            query.community_id is None,
            query.community_name is None,
            query.saved_only == Some(false),
            query.liked_only == Some(false),
            query.disliked_only == Some(false),
            query.page_cursor == page_cursor,
    {
        PostsList {
            type_: Some(scope.type_),
            sort: Some(scope.sort),
            page: None,
            limit: Some(PAGE_LIMIT),
            community_id: None,
            community_name: None,
            saved_only: Some(false),
            liked_only: Some(false),
            disliked_only: Some(false),
            page_cursor,
        }
    }
}

/// The scheme prefix a request uses.
pub open spec fn scheme_of(secure: bool) -> Seq<char> {
    if secure {
        "https://"@
    } else {
        "http://"@
    }
}

/// The base URL requests against an instance share: scheme, domain of the
/// selected instance (or the fallback domain), and the API path.
pub open spec fn base_url_of(secure: bool, instance: Option<Instance>) -> Seq<char> {
    scheme_of(secure) + (match instance {
        Some(inst) => inst.domain@,
        None => "lemmy.ml"@,
    }) + "/api"@ + "/v3"@
}

/// Composes the base URL for the selected instance, falling back to the
/// default domain when none is selected.
pub fn api_base_url(secure: bool, instance: &Option<Instance>) -> (url: String)
    ensures
        url@ == base_url_of(secure, *instance),
{
    let mut url = if secure {
        String::from_str("https://")
    } else {
        String::from_str("http://")
    };
    match instance {
        Some(inst) => url.append(inst.domain.as_str()),
        None => url.append(DEFAULT_DOMAIN),
    }
    url.append(API_URL);
    url.append(API_VER);
    proof {
        reveal_strlit("lemmy.ml");
        assert(url@ =~= base_url_of(secure, *instance));
    }
    url
}

/// URL of the paged post-listing endpoint under a base URL.
pub fn post_list_url(base: &str) -> (url: String)
    ensures
        url@ == base@ + "/post/list"@,
{
    let mut url = base.to_owned();
    url.append("/post/list");
    url
}

/// URL of the login endpoint under a base URL.
pub fn login_url(base: &str) -> (url: String)
    ensures
        url@ == base@ + "/user/login"@,
{
    let mut url = base.to_owned();
    url.append("/user/login");
    url
}

/// URL of the instance-discovery endpoint under a base URL.
pub fn federated_instances_url(base: &str) -> (url: String)
    ensures
        url@ == base@ + "/federated_instances"@,
{
    let mut url = base.to_owned();
    url.append("/federated_instances");
    url
}

/// The authorization header value a session token yields.
pub fn bearer_token(token: &str) -> (header: String)
    ensures
        header@ == "Bearer "@ + token@,
{
    let mut header = String::from_str("Bearer ");
    header.append(token);
    header
}

} // verus!
