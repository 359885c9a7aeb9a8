//! Which pods ask for a managed node pool, and how they are marked as its own.

use crate::labels::Labels;
use crate::model::{
    ManagedNodePool, ManagedNodePoolView, ObjectMeta, ObjectMetaView, ObjectRef, ObjectRefView,
    Pod, PodSpec, PodSpecView, PodView, Toleration, TolerationView,
};
use crate::pool::{
    get_pool_full_name, get_pool_taint, MetadataError, EFFECT_NO_SCHEDULE, LABEL_MANAGED_NODE_POOL,
};
use vstd::prelude::*;
use vstd::string::*;

verus! {

/// Selects the pods that no node has taken yet.
pub const FIELD_SELECTOR_PENDING: &'static str = "status.phase==Pending";

/// The phase of a pod whose containers have all ended well.
pub const PHASE_SUCCEEDED: &'static str = "Succeeded";

/// The phase of a pod whose containers have all ended, not all of them well.
pub const PHASE_FAILED: &'static str = "Failed";

/// How the toleration of a marked pod compares with the taint.
pub const OPERATOR_EQUAL: &'static str = "Equal";

/// The pool that a full name stands for: the name up to the first dot, the
/// namespace after it. A text without a dot names no pool.
pub open spec fn named_pool(full_name: Seq<char>) -> Option<ObjectRefView> {
    match full_name.index_of_first('.') {
        Some(dot) => Some(
            ObjectRefView {
                name: full_name.subrange(0, dot),
                namespace: Some(full_name.subrange(dot + 1, full_name.len() as int)),
            },
        ),
        None => None,
    }
}

/// Whether the pod carries the label of a managed node pool.
pub open spec fn is_labeled(pod: PodView) -> bool {
    match pod.metadata.labels {
        Some(labels) => labels.contains_key(LABEL_MANAGED_NODE_POOL@),
        None => false,
    }
}

/// The full name of the pool that the pod asks for: that of its label or, if it
/// has none, that of its node selector.
pub open spec fn requested_pool(pod: PodView) -> Option<Seq<char>> {
    if is_labeled(pod) {
        Some(pod.metadata.labels->0[LABEL_MANAGED_NODE_POOL@])
    } else {
        match pod.spec {
            Some(PodSpecView { node_selector: Some(selector), .. }) => if selector.contains_key(
                LABEL_MANAGED_NODE_POOL@,
            ) {
                Some(selector[LABEL_MANAGED_NODE_POOL@])
            } else {
                None
            },
            _ => None,
        }
    }
}

/// The pool that the pod asks for.
pub open spec fn pool_ref_of(pod: PodView) -> Option<ObjectRefView> {
    match requested_pool(pod) {
        Some(full_name) => named_pool(full_name),
        None => None,
    }
}

/// Whether the reference is to this pool.
pub open spec fn refers_to(obj_ref: ObjectRefView, pool: ManagedNodePoolView) -> bool {
    pool.metadata.name == Some(obj_ref.name) && pool.metadata.namespace == obj_ref.namespace
}

/// Whether the pod asks for this pool.
pub open spec fn asks_for(pod: PodView, pool: ManagedNodePoolView) -> bool {
    match pool_ref_of(pod) {
        Some(obj_ref) => refers_to(obj_ref, pool),
        None => false,
    }
}

/// Whether all containers of the pod have ended for good.
pub open spec fn is_finished(pod: PodView) -> bool {
    pod.phase == Some(PHASE_SUCCEEDED@) || pod.phase == Some(PHASE_FAILED@)
}

/// Whether the pod asks for a pool by the full name of this one.
pub open spec fn bears_name_of(pod: PodView, pool: ManagedNodePoolView) -> bool {
    match (requested_pool(pod), crate::pool::pool_full_name(pool)) {
        (Some(requested), Ok(full_name)) => requested == full_name,
        _ => false,
    }
}

/// Whether a pending pod needs the nodes of this pool: it asks for the pool and has
/// not finished.
pub open spec fn keeps_up(pod: PodView, pool: ManagedNodePoolView) -> bool {
    asks_for(pod, pool) && !is_finished(pod)
}

/// Whether a labeled pod needs the nodes of this pool: it asks for the pool or bears
/// its full name, and has not finished. The two differ for a pool whose name holds a
/// dot: its full name, taken apart at the first dot, refers to another pool.
pub open spec fn labeled_keeps_up(pod: PodView, pool: ManagedNodePoolView) -> bool {
    (asks_for(pod, pool) || bears_name_of(pod, pool)) && !is_finished(pod)
}

/// The pods that keep the pool up: those of the labeled ones, then those of the
/// pending ones.
pub open spec fn listed_pods(
    labeled: Seq<PodView>,
    pending: Seq<PodView>,
    pool: ManagedNodePoolView,
) -> Seq<PodView> {
    labeled.filter(|pod: PodView| labeled_keeps_up(pod, pool)) + pending.filter(
        |pod: PodView| keeps_up(pod, pool),
    )
}

/// The patch that marks the pod as one of this pool: it carries the pool's label
/// and tolerates the pool's taint.
pub open spec fn marking_patch(pod: PodView, uid: Seq<char>, full_name: Seq<char>) -> PodView {
    PodView {
        metadata: ObjectMetaView {
            name: pod.metadata.name,
            namespace: pod.metadata.namespace,
            uid: None,
            labels: Some(Map::empty().insert(LABEL_MANAGED_NODE_POOL@, full_name)),
        },
        spec: Some(
            PodSpecView {
                node_selector: None,
                tolerations: Some(
                    seq![
                        TolerationView {
                            effect: Some(EFFECT_NO_SCHEDULE@),
                            key: Some(LABEL_MANAGED_NODE_POOL@),
                            operator: Some(OPERATOR_EQUAL@),
                            value: Some(uid),
                        },
                    ],
                ),
            },
        ),
        phase: None,
    }
}

/// The patch for the pod, or what the pool lacks for it.
pub open spec fn pod_patch(pod: PodView, pool: ManagedNodePoolView) -> Result<
    PodView,
    MetadataError,
> {
    match (crate::pool::pool_full_name(pool), crate::pool::pool_taint(pool)) {
        (Err(e), _) => Err(e),
        (Ok(_), Err(e)) => Err(e),
        (Ok(full_name), Ok(uid)) => Ok(marking_patch(pod, uid, full_name)),
    }
}

/// The value of the pod's label.
fn pool_label(pod: &Pod) -> (value: Option<&String>)
    ensures
        match value {
            Some(text) => is_labeled(pod@) && pod@.metadata.labels->0[LABEL_MANAGED_NODE_POOL@]
                == text@,
            None => !is_labeled(pod@),
        },
{
    match &pod.metadata.labels {
        Some(labels) => labels.get(LABEL_MANAGED_NODE_POOL),
        None => None,
    }
}

/// Whether the pod carries the label of a managed node pool.
pub fn has_pool_label(pod: &Pod) -> (b: bool)
    ensures
        b == is_labeled(pod@),
{
    pool_label(pod).is_some()
}

/// The reference that a full name stands for.
fn parse_full_name(full_name: &str) -> (obj_ref: Option<ObjectRef>)
    ensures
        obj_ref.deep_view() == named_pool(full_name@),
{
    let len: usize = full_name.unicode_len();
    proof {
        full_name@.index_of_first_ensures('.');
    }
    let mut i: usize = 0;
    while i < len
        invariant
            len == full_name@.len(),
            i <= len,
            forall|j: int| 0 <= j < i ==> full_name@[j] != '.',
            match full_name@.index_of_first('.') {
                Some(dot) => 0 <= dot < len && full_name@[dot] == '.' && forall|j: int|
                    0 <= j < dot ==> full_name@[j] != '.',
                None => !full_name@.contains('.'),
            },
        decreases len - i,
    {
        if full_name.get_char(i) == '.' {
            assert(full_name@.contains(full_name@[i as int]));
            return Some(
                ObjectRef {
                    name: full_name.substring_char(0, i).to_owned(),
                    namespace: Some(full_name.substring_char(i + 1, len).to_owned()),
                },
            );
        }
        i += 1;
    }
    None
}

/// The full name of the pool that the pod asks for.
fn requested_full_name(pod: &Pod) -> (full_name: Option<&String>)
    ensures
        full_name.deep_view() == requested_pool(pod@),
{
    match pool_label(pod) {
        Some(full_name) => Some(full_name),
        None => match &pod.spec {
            Some(PodSpec { node_selector: Some(selector), .. }) => selector.get(
                LABEL_MANAGED_NODE_POOL,
            ),
            _ => None,
        },
    }
}

pub fn find_pool_ref(pod: &Pod) -> (obj_ref: Option<ObjectRef>)
    ensures
        obj_ref.deep_view() == pool_ref_of(pod@),
{
    match requested_full_name(pod) {
        Some(full_name) => parse_full_name(full_name.as_str()),
        None => None,
    }
}

pub fn matches_pool_ref(pool: &ManagedNodePool, obj_ref: &ObjectRef) -> (b: bool)
    ensures
        b == refers_to(obj_ref@, pool@),
{
    let same_name = match &pool.metadata.name {
        Some(name) => *name == obj_ref.name,
        None => false,
    };
    let same_namespace = match (&pool.metadata.namespace, &obj_ref.namespace) {
        (Some(own), Some(other)) => *own == *other,
        (None, None) => true,
        _ => false,
    };
    same_name && same_namespace
}

/// Whether all containers of the pod have ended for good.
fn pod_is_finished(pod: &Pod) -> (b: bool)
    ensures
        b == is_finished(pod@),
{
    match &pod.phase {
        Some(phase) => *phase == PHASE_SUCCEEDED.to_owned() || *phase == PHASE_FAILED.to_owned(),
        None => false,
    }
}

/// Whether the pod asks for this pool.
fn pod_asks_for(pod: &Pod, pool: &ManagedNodePool) -> (b: bool)
    ensures
        b == asks_for(pod@, pool@),
{
    match find_pool_ref(pod) {
        Some(obj_ref) => matches_pool_ref(pool, &obj_ref),
        None => false,
    }
}

/// Whether the pod asks for a pool by the full name of this one.
fn pod_bears_name_of(pod: &Pod, pool: &ManagedNodePool) -> (b: bool)
    ensures
        b == bears_name_of(pod@, pool@),
{
    match (requested_full_name(pod), get_pool_full_name(pool)) {
        (Some(requested), Ok(full_name)) => *requested == full_name,
        _ => false,
    }
}

/// Whether the pod, one of the labeled or of the pending ones, needs the nodes of this
/// pool.
fn pod_keeps_up(pod: &Pod, pool: &ManagedNodePool, labeled: bool) -> (b: bool)
    ensures
        b == if labeled {
            labeled_keeps_up(pod@, pool@)
        } else {
            keeps_up(pod@, pool@)
        },
{
    (pod_asks_for(pod, pool) || (labeled && pod_bears_name_of(pod, pool))) && !pod_is_finished(pod)
}

/// Appends those of the pods that keep the pool up.
fn append_kept(kept: &mut Vec<Pod>, pods: Vec<Pod>, pool: &ManagedNodePool, labeled: bool)
    ensures
        final(kept).deep_view() == old(kept).deep_view() + if labeled {
            pods.deep_view().filter(|pod: PodView| labeled_keeps_up(pod, pool@))
        } else {
            pods.deep_view().filter(|pod: PodView| keeps_up(pod, pool@))
        },
{
    let ghost before = kept.deep_view();
    let ghost all = pods.deep_view();
    let ghost keeping: spec_fn(PodView) -> bool = if labeled {
        |pod: PodView| labeled_keeps_up(pod, pool@)
    } else {
        |pod: PodView| keeps_up(pod, pool@)
    };
    proof {
        reveal(Seq::filter);
        assert(kept.deep_view() =~= before + all.take(0).filter(keeping));
    }
    for pod in it: pods
        invariant
            it.seq() == pods@,
            all == pods.deep_view(),
            forall|pod: PodView| #[trigger]
                keeping(pod) == (if labeled {
                    labeled_keeps_up(pod, pool@)
                } else {
                    keeps_up(pod, pool@)
                }),
            kept.deep_view() == before + all.take(it.index() as int).filter(keeping),
    {
        proof {
            reveal(Seq::filter);
            let done = it.index() as int;
            assert(all.take(done + 1).drop_last() =~= all.take(done));
            assert(all.take(done + 1).last() == pod@);
        }
        let ghost so_far = kept.deep_view();
        if pod_keeps_up(&pod, pool, labeled) {
            kept.push(pod);
            assert(kept.deep_view() =~= so_far.push(pod@));
        }
    }
    assert(all.take(all.len() as int) =~= all);
}

/// The pods that keep the pool up, out of the labeled and the pending ones.
pub fn list_pods(labeled: Vec<Pod>, pending: Vec<Pod>, pool: &ManagedNodePool) -> (pods: Vec<Pod>)
    ensures
        pods.deep_view() == listed_pods(labeled.deep_view(), pending.deep_view(), pool@),
{
    let mut pods: Vec<Pod> = Vec::new();
    assert(pods.deep_view() =~= Seq::empty());
    append_kept(&mut pods, labeled, pool, true);
    append_kept(&mut pods, pending, pool, false);
    pods
}

/// The patch that marks the pod as one of this pool.
pub fn patch_pod(pod: &Pod, pool: &ManagedNodePool) -> (patch: Result<Pod, MetadataError>)
    ensures
        crate::pool::outcome(patch) == pod_patch(pod@, pool@),
{
    let full_name = match get_pool_full_name(pool) {
        Ok(full_name) => full_name,
        Err(e) => {
            return Err(e);
        },
    };
    let uid = match get_pool_taint(pool) {
        Ok(uid) => uid.to_owned(),
        Err(e) => {
            return Err(e);
        },
    };
    let mut labels = Labels::new();
    labels.insert(LABEL_MANAGED_NODE_POOL.to_owned(), full_name);
    let mut tolerations: Vec<Toleration> = Vec::new();
    tolerations.push(
        Toleration {
            effect: Some(EFFECT_NO_SCHEDULE.to_owned()),
            key: Some(LABEL_MANAGED_NODE_POOL.to_owned()),
            operator: Some(OPERATOR_EQUAL.to_owned()),
            value: Some(uid),
        },
    );
    let patch = Pod {
        metadata: ObjectMeta {
            name: pod.metadata.name.clone(),
            namespace: pod.metadata.namespace.clone(),
            uid: None,
            labels: Some(labels),
        },
        spec: Some(PodSpec { node_selector: None, tolerations: Some(tolerations) }),
        phase: None,
    };
    proof {
        assert(tolerations.deep_view() =~= marking_patch(
            pod@,
            uid@,
            full_name@,
        ).spec->0.tolerations->0);
        assert(patch@ =~= marking_patch(pod@, uid@, full_name@));
    }
    Ok(patch)
}

/// Where a patch of the pod is written: its namespace and its name.
pub fn pod_location(pod: &Pod) -> (location: Result<(String, String), MetadataError>)
    ensures
        match (pod@.metadata.name, pod@.metadata.namespace) {
            (None, _) => location == Err::<(String, String), _>(MetadataError::MissingPodName),
            (Some(_), None) => location == Err::<(String, String), _>(
                MetadataError::MissingPodNamespace,
            ),
            (Some(name), Some(namespace)) => location matches Ok(l) && l.0@ == namespace && l.1@
                == name,
        },
{
    match &pod.metadata.name {
        None => Err(MetadataError::MissingPodName),
        Some(name) => match &pod.metadata.namespace {
            None => Err(MetadataError::MissingPodNamespace),
            Some(namespace) => Ok((namespace.clone(), name.clone())),
        },
    }
}

} // verus!
