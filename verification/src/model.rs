//! The objects that the operator works on: node pools as the cloud has them,
//! managed node pools and pods as Kubernetes has them.
//!
//! Each type has a view of the same shape over mathematical values: text is a
//! `Seq<char>`, a label map a `Map`, a length of time its nanoseconds.

use crate::labels::Labels;
use crate::time::{Duration, Timestamp};
use vstd::prelude::*;

verus! {

/// A copy of a list of texts.
fn copy_texts(texts: &Vec<String>) -> (copy: Vec<String>)
    ensures
        copy.deep_view() == texts.deep_view(),
{
    let mut copy: Vec<String> = Vec::new();
    let mut i: usize = 0;
    while i < texts.len()
        invariant
            i <= texts@.len(),
            copy@ == texts@.take(i as int),
        decreases texts@.len() - i,
    {
        copy.push(texts[i].clone());
        i += 1;
        assert(copy@ =~= texts@.take(i as int));
    }
    assert(copy@ =~= texts@);
    copy
}

/// How far the operator has come with creating a node pool.
#[derive(Clone, Copy, Debug, PartialEq, Eq, Structural)]
pub enum NodePoolStatus {
    CREATING,
    CREATED,
}

impl DeepView for NodePoolStatus {
    type V = NodePoolStatus;

    open spec fn deep_view(&self) -> NodePoolStatus {
        *self
    }
}

#[derive(Debug, PartialEq)]
pub struct NodePoolTaint {
    pub key: String,
    pub value: String,
    pub effect: String,
}

#[verifier::ext_equal]
pub struct NodePoolTaintView {
    pub key: Seq<char>,
    pub value: Seq<char>,
    pub effect: Seq<char>,
}

impl View for NodePoolTaint {
    type V = NodePoolTaintView;

    open spec fn view(&self) -> NodePoolTaintView {
        NodePoolTaintView { key: self.key@, value: self.value@, effect: self.effect@ }
    }
}

impl DeepView for NodePoolTaint {
    type V = NodePoolTaintView;

    open spec fn deep_view(&self) -> NodePoolTaintView {
        self@
    }
}

impl Clone for NodePoolTaint {
    fn clone(&self) -> (copy: NodePoolTaint)
        ensures
            copy@ == self@,
    {
        NodePoolTaint {
            key: self.key.clone(),
            value: self.value.clone(),
            effect: self.effect.clone(),
        }
    }
}

/// A copy of a list of taints.
fn copy_taints(taints: &Vec<NodePoolTaint>) -> (copy: Vec<NodePoolTaint>)
    ensures
        copy.deep_view() == taints.deep_view(),
{
    let mut copy: Vec<NodePoolTaint> = Vec::new();
    let mut i: usize = 0;
    while i < taints.len()
        invariant
            i <= taints@.len(),
            copy@.len() == i,
            forall|j: int| 0 <= j < i ==> (#[trigger] copy@[j])@ == taints@[j]@,
        decreases taints@.len() - i,
    {
        copy.push(taints[i].clone());
        i += 1;
    }
    assert(copy.deep_view() =~= taints.deep_view());
    copy
}

/// What a node pool is to look like.
#[derive(Debug, PartialEq)]
pub struct NodePoolSettings {
    pub name: String,
    pub size: String,
    pub count: u32,
    pub min_count: Option<u32>,
    pub max_count: Option<u32>,
    pub tags: Option<Vec<String>>,
    pub labels: Option<Labels>,
    pub taints: Option<Vec<NodePoolTaint>>,
}

#[verifier::ext_equal]
pub struct NodePoolSettingsView {
    pub name: Seq<char>,
    pub size: Seq<char>,
    pub count: u32,
    pub min_count: Option<u32>,
    pub max_count: Option<u32>,
    pub tags: Option<Seq<Seq<char>>>,
    pub labels: Option<Map<Seq<char>, Seq<char>>>,
    pub taints: Option<Seq<NodePoolTaintView>>,
}

impl View for NodePoolSettings {
    type V = NodePoolSettingsView;

    open spec fn view(&self) -> NodePoolSettingsView {
        NodePoolSettingsView {
            name: self.name@,
            size: self.size@,
            count: self.count,
            min_count: self.min_count,
            max_count: self.max_count,
            tags: self.tags.deep_view(),
            labels: self.labels.deep_view(),
            taints: self.taints.deep_view(),
        }
    }
}

impl DeepView for NodePoolSettings {
    type V = NodePoolSettingsView;

    open spec fn deep_view(&self) -> NodePoolSettingsView {
        self@
    }
}

impl Clone for NodePoolSettings {
    fn clone(&self) -> (copy: NodePoolSettings)
        ensures
            copy@ == self@,
    {
        NodePoolSettings {
            name: self.name.clone(),
            size: self.size.clone(),
            count: self.count,
            min_count: self.min_count,
            max_count: self.max_count,
            tags: match &self.tags {
                Some(tags) => Some(copy_texts(tags)),
                None => None,
            },
            labels: match &self.labels {
                Some(labels) => Some(labels.clone()),
                None => None,
            },
            taints: match &self.taints {
                Some(taints) => Some(copy_taints(taints)),
                None => None,
            },
        }
    }
}

/// A node pool as the cloud reports it.
#[derive(Debug)]
pub struct NodePool {
    pub id: String,
    pub settings: NodePoolSettings,
}

#[verifier::ext_equal]
pub struct NodePoolView {
    pub id: Seq<char>,
    pub settings: NodePoolSettingsView,
}

impl View for NodePool {
    type V = NodePoolView;

    open spec fn view(&self) -> NodePoolView {
        NodePoolView { id: self.id@, settings: self.settings@ }
    }
}

impl DeepView for NodePool {
    type V = NodePoolView;

    open spec fn deep_view(&self) -> NodePoolView {
        self@
    }
}

impl Clone for NodePool {
    fn clone(&self) -> (copy: NodePool)
        ensures
            copy@ == self@,
    {
        NodePool { id: self.id.clone(), settings: self.settings.clone() }
    }
}

/// What the operator has recorded about a managed node pool.
#[derive(Debug)]
pub struct ManagedNodePoolStatus {
    pub node_pool_id: Option<String>,
    pub node_pool_status: Option<NodePoolStatus>,
    pub destroy_after: Option<Timestamp>,
}

#[verifier::ext_equal]
pub struct ManagedNodePoolStatusView {
    pub node_pool_id: Option<Seq<char>>,
    pub node_pool_status: Option<NodePoolStatus>,
    pub destroy_after: Option<int>,
}

impl View for ManagedNodePoolStatus {
    type V = ManagedNodePoolStatusView;

    open spec fn view(&self) -> ManagedNodePoolStatusView {
        ManagedNodePoolStatusView {
            node_pool_id: self.node_pool_id.deep_view(),
            node_pool_status: self.node_pool_status,
            destroy_after: self.destroy_after.deep_view(),
        }
    }
}

impl DeepView for ManagedNodePoolStatus {
    type V = ManagedNodePoolStatusView;

    open spec fn deep_view(&self) -> ManagedNodePoolStatusView {
        self@
    }
}

impl ManagedNodePoolStatusView {
    /// The status of a managed pool of which nothing is recorded.
    pub open spec fn blank() -> ManagedNodePoolStatusView {
        ManagedNodePoolStatusView {
            node_pool_id: None,
            node_pool_status: None,
            destroy_after: None,
        }
    }
}

impl Clone for ManagedNodePoolStatus {
    fn clone(&self) -> (copy: ManagedNodePoolStatus)
        ensures
            copy@ == self@,
    {
        ManagedNodePoolStatus {
            node_pool_id: self.node_pool_id.clone(),
            node_pool_status: self.node_pool_status,
            destroy_after: self.destroy_after,
        }
    }
}

impl Default for ManagedNodePoolStatus {
    fn default() -> (status: ManagedNodePoolStatus)
        ensures
            status@ == ManagedNodePoolStatusView::blank(),
    {
        ManagedNodePoolStatus { node_pool_id: None, node_pool_status: None, destroy_after: None }
    }
}

/// What the user asks of a managed node pool.
#[derive(Debug)]
pub struct ManagedNodePoolSpec {
    pub settings: NodePoolSettings,
    /// How long the pool may stay idle before it is shut down. Without it an
    /// idle pool is shut down at once.
    pub idle_timeout: Option<Duration>,
}

#[verifier::ext_equal]
pub struct ManagedNodePoolSpecView {
    pub settings: NodePoolSettingsView,
    pub idle_timeout: Option<nat>,
}

impl View for ManagedNodePoolSpec {
    type V = ManagedNodePoolSpecView;

    open spec fn view(&self) -> ManagedNodePoolSpecView {
        ManagedNodePoolSpecView {
            settings: self.settings@,
            idle_timeout: self.idle_timeout.deep_view(),
        }
    }
}

impl Clone for ManagedNodePoolSpec {
    fn clone(&self) -> (copy: ManagedNodePoolSpec)
        ensures
            copy@ == self@,
    {
        ManagedNodePoolSpec { settings: self.settings.clone(), idle_timeout: self.idle_timeout }
    }
}

/// The metadata of a Kubernetes object.
#[derive(Debug)]
pub struct ObjectMeta {
    pub name: Option<String>,
    pub namespace: Option<String>,
    pub uid: Option<String>,
    pub labels: Option<Labels>,
}

#[verifier::ext_equal]
pub struct ObjectMetaView {
    pub name: Option<Seq<char>>,
    pub namespace: Option<Seq<char>>,
    pub uid: Option<Seq<char>>,
    pub labels: Option<Map<Seq<char>, Seq<char>>>,
}

impl View for ObjectMeta {
    type V = ObjectMetaView;

    open spec fn view(&self) -> ObjectMetaView {
        ObjectMetaView {
            name: self.name.deep_view(),
            namespace: self.namespace.deep_view(),
            uid: self.uid.deep_view(),
            labels: self.labels.deep_view(),
        }
    }
}

impl Clone for ObjectMeta {
    fn clone(&self) -> (copy: ObjectMeta)
        ensures
            copy@ == self@,
    {
        ObjectMeta {
            name: self.name.clone(),
            namespace: self.namespace.clone(),
            uid: self.uid.clone(),
            labels: match &self.labels {
                Some(labels) => Some(labels.clone()),
                None => None,
            },
        }
    }
}

impl Default for ObjectMeta {
    fn default() -> (metadata: ObjectMeta)
        ensures
            metadata@ == (ObjectMetaView { name: None, namespace: None, uid: None, labels: None }),
    {
        ObjectMeta { name: None, namespace: None, uid: None, labels: None }
    }
}

/// A managed node pool: a node pool that exists only while there is demand for
/// it.
#[derive(Debug)]
pub struct ManagedNodePool {
    pub metadata: ObjectMeta,
    pub spec: ManagedNodePoolSpec,
    pub status: Option<ManagedNodePoolStatus>,
}

#[verifier::ext_equal]
pub struct ManagedNodePoolView {
    pub metadata: ObjectMetaView,
    pub spec: ManagedNodePoolSpecView,
    pub status: Option<ManagedNodePoolStatusView>,
}

impl View for ManagedNodePool {
    type V = ManagedNodePoolView;

    open spec fn view(&self) -> ManagedNodePoolView {
        ManagedNodePoolView {
            metadata: self.metadata@,
            spec: self.spec@,
            status: self.status.deep_view(),
        }
    }
}

impl Clone for ManagedNodePool {
    fn clone(&self) -> (copy: ManagedNodePool)
        ensures
            copy@ == self@,
    {
        ManagedNodePool {
            metadata: self.metadata.clone(),
            spec: self.spec.clone(),
            status: match &self.status {
                Some(status) => Some(status.clone()),
                None => None,
            },
        }
    }
}

/// A taint that a pod accepts on its node.
#[derive(Debug, PartialEq)]
pub struct Toleration {
    pub effect: Option<String>,
    pub key: Option<String>,
    pub operator: Option<String>,
    pub value: Option<String>,
}

#[verifier::ext_equal]
pub struct TolerationView {
    pub effect: Option<Seq<char>>,
    pub key: Option<Seq<char>>,
    pub operator: Option<Seq<char>>,
    pub value: Option<Seq<char>>,
}

impl View for Toleration {
    type V = TolerationView;

    open spec fn view(&self) -> TolerationView {
        TolerationView {
            effect: self.effect.deep_view(),
            key: self.key.deep_view(),
            operator: self.operator.deep_view(),
            value: self.value.deep_view(),
        }
    }
}

impl DeepView for Toleration {
    type V = TolerationView;

    open spec fn deep_view(&self) -> TolerationView {
        self@
    }
}

#[derive(Debug)]
pub struct PodSpec {
    pub node_selector: Option<Labels>,
    pub tolerations: Option<Vec<Toleration>>,
}

#[verifier::ext_equal]
pub struct PodSpecView {
    pub node_selector: Option<Map<Seq<char>, Seq<char>>>,
    pub tolerations: Option<Seq<TolerationView>>,
}

impl View for PodSpec {
    type V = PodSpecView;

    open spec fn view(&self) -> PodSpecView {
        PodSpecView {
            node_selector: self.node_selector.deep_view(),
            tolerations: self.tolerations.deep_view(),
        }
    }
}

impl DeepView for PodSpec {
    type V = PodSpecView;

    open spec fn deep_view(&self) -> PodSpecView {
        self@
    }
}

impl Default for PodSpec {
    fn default() -> (pod_spec: PodSpec)
        ensures
            pod_spec@ == (PodSpecView { node_selector: None, tolerations: None }),
    {
        PodSpec { node_selector: None, tolerations: None }
    }
}

/// A pod, as far as the operator reads and writes it.
#[derive(Debug)]
pub struct Pod {
    pub metadata: ObjectMeta,
    pub spec: Option<PodSpec>,
    /// How far the pod has come, as its status reports it: `Pending`, `Running`,
    /// `Succeeded` and so on.
    pub phase: Option<String>,
}

#[verifier::ext_equal]
pub struct PodView {
    pub metadata: ObjectMetaView,
    pub spec: Option<PodSpecView>,
    pub phase: Option<Seq<char>>,
}

impl View for Pod {
    type V = PodView;

    open spec fn view(&self) -> PodView {
        PodView {
            metadata: self.metadata@,
            spec: self.spec.deep_view(),
            phase: self.phase.deep_view(),
        }
    }
}

impl DeepView for Pod {
    type V = PodView;

    open spec fn deep_view(&self) -> PodView {
        self@
    }
}

impl Default for Pod {
    fn default() -> (pod: Pod)
        ensures
            pod@ == (PodView {
                metadata: ObjectMetaView { name: None, namespace: None, uid: None, labels: None },
                spec: None,
                phase: None,
            }),
    {
        Pod { metadata: ObjectMeta::default(), spec: None, phase: None }
    }
}

/// A reference to a managed node pool.
#[derive(Debug, PartialEq)]
pub struct ObjectRef {
    pub name: String,
    pub namespace: Option<String>,
}

#[verifier::ext_equal]
pub struct ObjectRefView {
    pub name: Seq<char>,
    pub namespace: Option<Seq<char>>,
}

impl View for ObjectRef {
    type V = ObjectRefView;

    open spec fn view(&self) -> ObjectRefView {
        ObjectRefView { name: self.name@, namespace: self.namespace.deep_view() }
    }
}

impl DeepView for ObjectRef {
    type V = ObjectRefView;

    open spec fn deep_view(&self) -> ObjectRefView {
        self@
    }
}

} // verus!
