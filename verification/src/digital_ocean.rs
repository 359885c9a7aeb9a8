//! Node pools in DigitalOcean: its requests, and what its replies mean.

use crate::labels::Labels;
use crate::model::{
    NodePool, NodePoolSettings, NodePoolSettingsView, NodePoolTaint, NodePoolTaintView, NodePoolView,
};
use vstd::prelude::*;
use vstd::string::*;

verus! {

pub const CLUSTERS_URL: &'static str = "https://api.digitalocean.com/v2/kubernetes/clusters/";

pub const NODE_POOLS_PATH: &'static str = "/node_pools";

/// The HTTP status of what does not exist.
pub const STATUS_NOT_FOUND: u16 = 404;

#[derive(Clone, Debug)]
pub struct DoNodePoolTaint {
    pub key: String,
    pub value: String,
    pub effect: String,
}

impl View for DoNodePoolTaint {
    type V = NodePoolTaintView;

    open spec fn view(&self) -> NodePoolTaintView {
        NodePoolTaintView { key: self.key@, value: self.value@, effect: self.effect@ }
    }
}

impl DeepView for DoNodePoolTaint {
    type V = NodePoolTaintView;

    open spec fn deep_view(&self) -> NodePoolTaintView {
        self@
    }
}

/// The settings of a node pool as DigitalOcean writes them.
#[derive(Clone, Debug)]
pub struct DoNodePoolSettings {
    pub name: String,
    pub size: String,
    pub count: u32,
    pub auto_scale: Option<bool>,
    pub min_nodes: Option<u32>,
    pub max_nodes: Option<u32>,
    pub tags: Option<Vec<String>>,
    pub labels: Option<Labels>,
    pub taints: Option<Vec<DoNodePoolTaint>>,
}

#[verifier::ext_equal]
pub struct DoNodePoolSettingsView {
    pub name: Seq<char>,
    pub size: Seq<char>,
    pub count: u32,
    pub auto_scale: Option<bool>,
    pub min_nodes: Option<u32>,
    pub max_nodes: Option<u32>,
    pub tags: Option<Seq<Seq<char>>>,
    pub labels: Option<Map<Seq<char>, Seq<char>>>,
    pub taints: Option<Seq<NodePoolTaintView>>,
}

impl View for DoNodePoolSettings {
    type V = DoNodePoolSettingsView;

    open spec fn view(&self) -> DoNodePoolSettingsView {
        DoNodePoolSettingsView {
            name: self.name@,
            size: self.size@,
            count: self.count,
            auto_scale: self.auto_scale,
            min_nodes: self.min_nodes,
            max_nodes: self.max_nodes,
            tags: self.tags.deep_view(),
            labels: self.labels.deep_view(),
            taints: self.taints.deep_view(),
        }
    }
}

impl DeepView for DoNodePoolSettings {
    type V = DoNodePoolSettingsView;

    open spec fn deep_view(&self) -> DoNodePoolSettingsView {
        self@
    }
}

/// A node pool as DigitalOcean reports it.
#[derive(Clone, Debug)]
pub struct DoNodePool {
    pub id: String,
    pub settings: DoNodePoolSettings,
}

#[verifier::ext_equal]
pub struct DoNodePoolView {
    pub id: Seq<char>,
    pub settings: DoNodePoolSettingsView,
}

impl View for DoNodePool {
    type V = DoNodePoolView;

    open spec fn view(&self) -> DoNodePoolView {
        DoNodePoolView { id: self.id@, settings: self.settings@ }
    }
}

impl DeepView for DoNodePool {
    type V = DoNodePoolView;

    open spec fn deep_view(&self) -> DoNodePoolView {
        self@
    }
}

/// The settings in DigitalOcean's terms. The pool scales itself when there is a
/// bound to scale to.
pub open spec fn do_settings(settings: NodePoolSettingsView) -> DoNodePoolSettingsView {
    DoNodePoolSettingsView {
        name: settings.name,
        size: settings.size,
        count: settings.count,
        auto_scale: Some(settings.min_count is Some || settings.max_count is Some),
        min_nodes: settings.min_count,
        max_nodes: settings.max_count,
        tags: settings.tags,
        labels: settings.labels,
        taints: settings.taints,
    }
}

/// The settings that DigitalOcean's stand for. Bounds count only where the pool
/// scales itself.
pub open spec fn plain_settings(settings: DoNodePoolSettingsView) -> NodePoolSettingsView {
    let scales = settings.auto_scale == Some(true);
    NodePoolSettingsView {
        name: settings.name,
        size: settings.size,
        count: settings.count,
        min_count: if scales {
            settings.min_nodes
        } else {
            None
        },
        max_count: if scales {
            settings.max_nodes
        } else {
            None
        },
        tags: settings.tags,
        labels: settings.labels,
        taints: settings.taints,
    }
}

/// The node pool that DigitalOcean's stands for.
pub open spec fn plain_pool(pool: DoNodePoolView) -> NodePoolView {
    NodePoolView { id: pool.id, settings: plain_settings(pool.settings) }
}

fn to_do_taints(taints: Vec<NodePoolTaint>) -> (do_taints: Vec<DoNodePoolTaint>)
    ensures
        do_taints.deep_view() == taints.deep_view(),
{
    let mut do_taints: Vec<DoNodePoolTaint> = Vec::new();
    for taint in it: taints
        invariant
            it.seq() == taints@,
            do_taints@.len() == it.index(),
            forall|j: int| 0 <= j < it.index() ==> (#[trigger] do_taints@[j])@ == taints@[j]@,
    {
        do_taints.push(
            DoNodePoolTaint { key: taint.key, value: taint.value, effect: taint.effect },
        );
    }
    assert(do_taints.deep_view() =~= taints.deep_view());
    do_taints
}

fn from_do_taints(do_taints: Vec<DoNodePoolTaint>) -> (taints: Vec<NodePoolTaint>)
    ensures
        taints.deep_view() == do_taints.deep_view(),
{
    let mut taints: Vec<NodePoolTaint> = Vec::new();
    for taint in it: do_taints
        invariant
            it.seq() == do_taints@,
            taints@.len() == it.index(),
            forall|j: int| 0 <= j < it.index() ==> (#[trigger] taints@[j])@ == do_taints@[j]@,
    {
        taints.push(NodePoolTaint { key: taint.key, value: taint.value, effect: taint.effect });
    }
    assert(taints.deep_view() =~= do_taints.deep_view());
    taints
}

pub fn to_do_settings(settings: &NodePoolSettings) -> (do_settings: DoNodePoolSettings)
    ensures
        do_settings@ == self::do_settings(settings@),
{
    let NodePoolSettings { name, size, count, min_count, max_count, tags, labels, taints } =
        settings.clone();
    DoNodePoolSettings {
        name,
        size,
        count,
        auto_scale: Some(min_count.is_some() || max_count.is_some()),
        min_nodes: min_count,
        max_nodes: max_count,
        tags,
        labels,
        taints: match taints {
            Some(taints) => Some(to_do_taints(taints)),
            None => None,
        },
    }
}

pub fn from_do_pool_settings(settings: DoNodePoolSettings) -> (plain: NodePoolSettings)
    ensures
        plain@ == plain_settings(settings@),
{
    let scales = match settings.auto_scale {
        Some(auto_scale) => auto_scale,
        None => false,
    };
    NodePoolSettings {
        name: settings.name,
        size: settings.size,
        count: settings.count,
        min_count: if scales {
            settings.min_nodes
        } else {
            None
        },
        max_count: if scales {
            settings.max_nodes
        } else {
            None
        },
        tags: settings.tags,
        labels: settings.labels,
        taints: match settings.taints {
            Some(taints) => Some(from_do_taints(taints)),
            None => None,
        },
    }
}

pub fn from_do_pool(pool: DoNodePool) -> (plain: NodePool)
    ensures
        plain@ == plain_pool(pool@),
{
    NodePool { id: pool.id, settings: from_do_pool_settings(pool.settings) }
}

/// The node pools that a listing stands for, in its order.
pub fn from_do_pools(pools: Vec<DoNodePool>) -> (plain: Vec<NodePool>)
    ensures
        plain.deep_view() == pools.deep_view().map_values(|pool: DoNodePoolView| plain_pool(pool)),
{
    let mut plain: Vec<NodePool> = Vec::new();
    for pool in it: pools
        invariant
            it.seq() == pools@,
            plain@.len() == it.index(),
            forall|j: int|
                0 <= j < it.index() ==> (#[trigger] plain@[j])@ == plain_pool(pools@[j]@),
    {
        plain.push(from_do_pool(pool));
    }
    assert(plain.deep_view() =~= pools.deep_view().map_values(
        |pool: DoNodePoolView| plain_pool(pool),
    ));
    plain
}

/// The first of the pools that has this name.
pub fn find_pool_by_name(pools: Vec<NodePool>, name: &str) -> (picked: Option<NodePool>)
    ensures
        match picked {
            Some(pool) => exists|i: int|
                0 <= i < pools@.len() && pool@ == (#[trigger] pools@[i])@ && pool@.settings.name
                    == name@ && forall|j: int|
                    0 <= j < i ==> (#[trigger] pools@[j])@.settings.name != name@,
            None => forall|i: int|
                0 <= i < pools@.len() ==> (#[trigger] pools@[i])@.settings.name != name@,
        },
{
    let wanted = name.to_owned();
    for pool in it: pools
        invariant
            it.seq() == pools@,
            wanted@ == name@,
            forall|j: int|
                0 <= j < it.index() ==> (#[trigger] pools@[j])@.settings.name != name@,
    {
        if pool.settings.name == wanted {
            assert(pool@ == pools@[it.index() as int]@);
            return Some(pool);
        }
    }
    None
}

#[derive(Clone, Copy, Debug, PartialEq, Eq, Structural)]
pub enum Method {
    Get,
    Post,
    Put,
    Delete,
}

/// A call to DigitalOcean. The body, where there is one, is sent as JSON.
pub struct HttpRequest {
    pub method: Method,
    pub url: String,
    pub bearer_token: String,
    pub body: Option<DoNodePoolSettings>,
}

pub struct HttpRequestView {
    pub method: Method,
    pub url: Seq<char>,
    pub bearer_token: Seq<char>,
    pub body: Option<DoNodePoolSettingsView>,
}

impl View for HttpRequest {
    type V = HttpRequestView;

    open spec fn view(&self) -> HttpRequestView {
        HttpRequestView {
            method: self.method,
            url: self.url@,
            bearer_token: self.bearer_token@,
            body: self.body.deep_view(),
        }
    }
}

/// Where the node pools of a cluster are.
pub open spec fn node_pools_url(cluster_id: Seq<char>) -> Seq<char> {
    CLUSTERS_URL@ + cluster_id + NODE_POOLS_PATH@
}

/// Where one node pool of a cluster is.
pub open spec fn node_pool_url(cluster_id: Seq<char>, id: Seq<char>) -> Seq<char> {
    node_pools_url(cluster_id) + seq!['/'] + id
}

/// Access to one cluster in DigitalOcean.
pub struct DigitalOceanSettings {
    pub token: String,
    pub cluster_id: String,
}

pub struct DigitalOceanSettingsView {
    pub token: Seq<char>,
    pub cluster_id: Seq<char>,
}

impl View for DigitalOceanSettings {
    type V = DigitalOceanSettingsView;

    open spec fn view(&self) -> DigitalOceanSettingsView {
        DigitalOceanSettingsView { token: self.token@, cluster_id: self.cluster_id@ }
    }
}

/// Makes the requests for the node pools of one cluster.
pub struct DigitalOcean {
    settings: DigitalOceanSettings,
}

impl View for DigitalOcean {
    type V = DigitalOceanSettingsView;

    closed spec fn view(&self) -> DigitalOceanSettingsView {
        self.settings@
    }
}

impl DigitalOcean {
    pub fn new(settings: DigitalOceanSettings) -> (provider: Self)
        ensures
            provider@ == settings@,
    {
        DigitalOcean { settings }
    }

    fn node_pools_url(&self) -> (url: String)
        ensures
            url@ == node_pools_url(self@.cluster_id),
    {
        CLUSTERS_URL.to_owned().concat(self.settings.cluster_id.as_str()).concat(NODE_POOLS_PATH)
    }

    fn node_pool_url(&self, id: &str) -> (url: String)
        ensures
            url@ == node_pool_url(self@.cluster_id, id@),
    {
        proof {
            reveal_strlit("/");
            assert("/"@ =~= seq!['/']);
        }
        self.node_pools_url().concat("/").concat(id)
    }

    /// The request for all node pools of the cluster.
    pub fn list_pools(&self) -> (request: HttpRequest)
        ensures
            request@ == (HttpRequestView {
                method: Method::Get,
                url: node_pools_url(self@.cluster_id),
                bearer_token: self@.token,
                body: None,
            }),
    {
        HttpRequest {
            method: Method::Get,
            url: self.node_pools_url(),
            bearer_token: self.settings.token.clone(),
            body: None,
        }
    }

    /// The request for one node pool.
    pub fn find_pool_by_id(&self, id: &str) -> (request: HttpRequest)
        ensures
            request@ == (HttpRequestView {
                method: Method::Get,
                url: node_pool_url(self@.cluster_id, id@),
                bearer_token: self@.token,
                body: None,
            }),
    {
        HttpRequest {
            method: Method::Get,
            url: self.node_pool_url(id),
            bearer_token: self.settings.token.clone(),
            body: None,
        }
    }

    /// The request that creates a node pool.
    pub fn create_pool(&self, settings: &NodePoolSettings) -> (request: HttpRequest)
        ensures
            request@ == (HttpRequestView {
                method: Method::Post,
                url: node_pools_url(self@.cluster_id),
                bearer_token: self@.token,
                body: Some(do_settings(settings@)),
            }),
    {
        HttpRequest {
            method: Method::Post,
            url: self.node_pools_url(),
            bearer_token: self.settings.token.clone(),
            body: Some(to_do_settings(settings)),
        }
    }

    /// The request that gives a node pool new settings.
    pub fn update_pool_by_id(&self, id: &str, settings: &NodePoolSettings) -> (request: HttpRequest)
        ensures
            request@ == (HttpRequestView {
                method: Method::Put,
                url: node_pool_url(self@.cluster_id, id@),
                bearer_token: self@.token,
                body: Some(do_settings(settings@)),
            }),
    {
        HttpRequest {
            method: Method::Put,
            url: self.node_pool_url(id),
            bearer_token: self.settings.token.clone(),
            body: Some(to_do_settings(settings)),
        }
    }

    /// The request that destroys a node pool.
    pub fn destroy_pool_by_id(&self, id: &str) -> (request: HttpRequest)
        ensures
            request@ == (HttpRequestView {
                method: Method::Delete,
                url: node_pool_url(self@.cluster_id, id@),
                bearer_token: self@.token,
                body: None,
            }),
    {
        HttpRequest {
            method: Method::Delete,
            url: self.node_pool_url(id),
            bearer_token: self.settings.token.clone(),
            body: None,
        }
    }
}

/// Whether a reply with this status to the request for one node pool carries
/// the pool. If not, the pool does not exist.
pub fn carries_pool(status: u16) -> (b: bool)
    ensures
        b == (status != STATUS_NOT_FOUND),
{
    status != STATUS_NOT_FOUND
}

/// What the request for one node pool finds, given the pool that the reply
/// carries.
pub fn found_pool(carried: Option<DoNodePool>) -> (found: Option<NodePool>)
    ensures
        found.deep_view() == (match carried {
            Some(pool) => Some(plain_pool(pool@)),
            None => None,
        }),
{
    match carried {
        Some(pool) => Some(from_do_pool(pool)),
        None => None,
    }
}

/// What a reply with this status to the request that destroys a node pool means:
/// whether there was a pool to destroy, or, as an error, the status with which
/// the request was turned down.
pub fn destroyed(status: u16) -> (existed: Result<bool, u16>)
    ensures
        existed == (if status == STATUS_NOT_FOUND {
            Ok::<bool, u16>(false)
        } else if 400 <= status < 600 {
            Err::<bool, u16>(status)
        } else {
            Ok::<bool, u16>(true)
        }),
{
    if status == STATUS_NOT_FOUND {
        Ok(false)
    } else if 400 <= status && status < 600 {
        Err(status)
    } else {
        Ok(true)
    }
}

} // verus!
