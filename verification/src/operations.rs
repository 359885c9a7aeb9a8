//! What the operations on names, pods, settings and timeouts give, stated over their
//! arguments and results field by field, and what the views of the data show.

use crate::digital_ocean::{
    DigitalOcean, DigitalOceanSettings, DoNodePool, DoNodePoolSettings, HttpRequest, Method,
};
use crate::labels::Labels;
use crate::model::{
    ManagedNodePool, ManagedNodePoolStatus, NodePool, NodePoolSettings, ObjectMeta, ObjectRef, Pod,
    PodSpec, PodView,
};
use crate::pool::MetadataError;
use crate::time::{Duration, Timestamp};
use vstd::prelude::*;

verus! {

proof fn lemma_elements<T: DeepView>(v: Vec<T>)
    ensures
        v.deep_view().len() == v@.len(),
        forall|i: int| 0 <= i < v@.len() ==> #[trigger] v.deep_view()[i] == v@[i].deep_view(),
{
}

/// The view of settings shows each field, and nothing else.
pub proof fn law_settings_view(settings: NodePoolSettings)
    ensures
        settings@.name == settings.name@,
        settings@.size == settings.size@,
        settings@.count == settings.count,
        settings@.min_count == settings.min_count,
        settings@.max_count == settings.max_count,
        match settings.tags {
            Some(tags) => settings@.tags matches Some(seen) && seen.len() == tags@.len()
                && forall|i: int| 0 <= i < tags@.len() ==> #[trigger] seen[i] == tags@[i]@,
            None => settings@.tags is None,
        },
        match settings.labels {
            Some(labels) => settings@.labels == Some(labels@),
            None => settings@.labels is None,
        },
        match settings.taints {
            Some(taints) => settings@.taints matches Some(seen) && seen.len() == taints@.len()
                && forall|i: int|
                0 <= i < taints@.len() ==> (#[trigger] seen[i]).key == taints@[i].key@
                    && seen[i].value == taints@[i].value@ && seen[i].effect == taints@[i].effect@,
            None => settings@.taints is None,
        },
{
    if let Some(tags) = settings.tags {
        lemma_elements(tags);
    }
    if let Some(taints) = settings.taints {
        lemma_elements(taints);
    }
}

/// The view of a node pool shows each field.
pub proof fn law_node_pool_view(pool: NodePool)
    ensures
        pool@.id == pool.id@,
        pool@.settings == pool.settings@,
{
}

/// Whether the view of an optional text shows it.
pub open spec fn shows(seen: Option<Seq<char>>, text: Option<String>) -> bool {
    match text {
        Some(text) => seen == Some(text@),
        None => seen is None,
    }
}

/// The view of metadata shows each field.
pub proof fn law_metadata_view(metadata: ObjectMeta)
    ensures
        shows(metadata@.name, metadata.name),
        shows(metadata@.namespace, metadata.namespace),
        shows(metadata@.uid, metadata.uid),
        match metadata.labels {
            Some(labels) => metadata@.labels == Some(labels@),
            None => metadata@.labels is None,
        },
{
}

/// The view of a status shows each field.
pub proof fn law_status_view(status: ManagedNodePoolStatus)
    ensures
        shows(status@.node_pool_id, status.node_pool_id),
        status@.node_pool_status == status.node_pool_status,
        match status.destroy_after {
            Some(end) => status@.destroy_after == Some(end@),
            None => status@.destroy_after is None,
        },
{
}

/// The view of a managed pool shows each field.
pub proof fn law_managed_pool_view(pool: ManagedNodePool)
    ensures
        pool@.metadata == pool.metadata@,
        pool@.spec.settings == pool.spec.settings@,
        match pool.spec.idle_timeout {
            Some(timeout) => pool@.spec.idle_timeout == Some(timeout@),
            None => pool@.spec.idle_timeout is None,
        },
        match pool.status {
            Some(status) => pool@.status == Some(status@),
            None => pool@.status is None,
        },
{
}

/// The view of a pod shows each field.
pub proof fn law_pod_view(pod: Pod)
    ensures
        pod@.metadata == pod.metadata@,
        shows(pod@.phase, pod.phase),
        match pod.spec {
            None => pod@.spec is None,
            Some(pod_spec) => pod@.spec matches Some(seen) && (match pod_spec.node_selector {
                Some(selector) => seen.node_selector == Some(selector@),
                None => seen.node_selector is None,
            }) && (match pod_spec.tolerations {
                Some(list) => seen.tolerations matches Some(shown) && shown.len() == list@.len()
                    && forall|i: int|
                    0 <= i < list@.len() ==> shows((#[trigger] shown[i]).effect, list@[i].effect)
                        && shows(shown[i].key, list@[i].key) && shows(
                        shown[i].operator,
                        list@[i].operator,
                    ) && shows(shown[i].value, list@[i].value),
                None => seen.tolerations is None,
            }),
        },
{
    if let Some(PodSpec { tolerations: Some(list), .. }) = pod.spec {
        lemma_elements(list);
    }
}

/// The view of a reference shows each field.
pub proof fn law_reference_view(obj_ref: ObjectRef)
    ensures
        obj_ref@.name == obj_ref.name@,
        shows(obj_ref@.namespace, obj_ref.namespace),
{
}

/// A copy has the fields of what it was made from.
pub proof fn law_copies_are_equal(
    pool: ManagedNodePool,
    pool_copy: ManagedNodePool,
    settings: NodePoolSettings,
    settings_copy: NodePoolSettings,
    status: ManagedNodePoolStatus,
    status_copy: ManagedNodePoolStatus,
)
    requires
        call_ensures(<ManagedNodePool as Clone>::clone, (&pool,), pool_copy),
        call_ensures(<NodePoolSettings as Clone>::clone, (&settings,), settings_copy),
        call_ensures(<ManagedNodePoolStatus as Clone>::clone, (&status,), status_copy),
    ensures
        pool_copy@ == pool@,
        settings_copy@ == settings@,
        status_copy@ == status@,
{
}

/// The entries of a map are its keys with their values, each key once.
pub proof fn law_entries_are_the_map(labels: Labels, entries: &Vec<(String, String)>)
    requires
        call_ensures(Labels::entries, (&labels,), entries),
    ensures
        forall|i: int|
            0 <= i < entries@.len() ==> labels@.contains_key((#[trigger] entries@[i]).0@)
                && labels@[entries@[i].0@] == entries@[i].1@,
        forall|key: Seq<char>| #[trigger]
            labels@.contains_key(key) ==> exists|i: int|
                0 <= i < entries@.len() && (#[trigger] entries@[i]).0@ == key,
        forall|i: int, j: int|
            0 <= i < j < entries@.len() ==> (#[trigger] entries@[i]).0@ != (
            #[trigger] entries@[j]).0@,
{
    assert forall|i: int| 0 <= i < entries@.len() implies labels@.contains_key(
        (#[trigger] entries@[i]).0@,
    ) && labels@[entries@[i].0@] == entries@[i].1@ by {
        crate::labels::lemma_entry_in_map(entries@, i);
    }
    assert forall|key: Seq<char>| #[trigger] labels@.contains_key(key) implies exists|i: int|
        0 <= i < entries@.len() && (#[trigger] entries@[i]).0@ == key by {
        crate::labels::lemma_key_has_entry(entries@, key);
    }
}

/// What is put under a key is what is found there, and nothing else changes.
pub proof fn law_inserted_value_is_found(
    before: Map<Seq<char>, Seq<char>>,
    labels: Labels,
    key: String,
    value: String,
    other: &str,
    found: Option<&String>,
)
    requires
        labels@ == before.insert(key@, value@),
        call_ensures(Labels::get, (&labels, other), found),
    ensures
        other@ == key@ ==> (found matches Some(text) && text@ == value@),
        other@ != key@ ==> match found {
            Some(text) => before.contains_key(other@) && before[other@] == text@,
            None => !before.contains_key(other@),
        },
{
}

/// Maps are equal exactly where they hold the same values under the same keys.
pub proof fn law_equal_maps(a: Labels, b: Labels, same: bool)
    requires
        call_ensures(<Labels as PartialEq>::eq, (&a, &b), same),
    ensures
        same <==> forall|key: Seq<char>|
            (#[trigger] a@.contains_key(key) <==> b@.contains_key(key)) && (a@.contains_key(key)
                ==> a@[key] == b@[key]),
{
    if forall|key: Seq<char>|
        (#[trigger] a@.contains_key(key) <==> b@.contains_key(key)) && (a@.contains_key(key)
            ==> a@[key] == b@[key]) {
        assert(a@ =~= b@);
    }
}

/// The full name of a pool is its name, a dot and its namespace; it lacks one only
/// where one of the two is missing, and the name is missed first.
pub proof fn law_full_name(pool: ManagedNodePool, full_name: Result<String, MetadataError>)
    requires
        call_ensures(crate::pool::get_pool_full_name, (&pool,), full_name),
    ensures
        match (pool.metadata.name, pool.metadata.namespace) {
            (Some(name), Some(namespace)) => full_name matches Ok(text) && text@ == name@ + seq![
                '.',
            ] + namespace@,
            (None, _) => full_name matches Err(MetadataError::MissingPoolName),
            (Some(_), None) => full_name matches Err(MetadataError::MissingPoolNamespace),
        },
{
}

/// The value of a pool's taint is its uid.
pub proof fn law_taint_value(pool: ManagedNodePool, taint: Result<&str, MetadataError>)
    requires
        call_ensures(crate::pool::get_pool_taint, (&pool,), taint),
    ensures
        match pool.metadata.uid {
            Some(uid) => taint matches Ok(text) && text@ == uid@,
            None => taint matches Err(MetadataError::MissingPoolUid),
        },
{
}

/// An update is called for exactly where one of the three sizes differs in value.
pub proof fn law_update_is_called_for(
    asked: NodePoolSettings,
    current: NodePoolSettings,
    update: bool,
)
    requires
        call_ensures(crate::pool::needs_update, (&asked, &current), update),
    ensures
        asked.count != current.count ==> update,
        asked.min_count != current.min_count ==> update,
        asked.max_count != current.max_count ==> update,
        asked.count == current.count && asked.min_count == current.min_count && asked.max_count
            == current.max_count ==> !update,
{
}

/// What lacks in the metadata of a pool that cannot be updated or created: its uid is
/// missed first, then its name, then its namespace.
pub open spec fn unmarkable(pool: ManagedNodePool, e: MetadataError) -> bool {
    if pool.metadata.uid is None {
        e == MetadataError::MissingPoolUid
    } else if pool.metadata.name is None {
        e == MetadataError::MissingPoolName
    } else {
        pool.metadata.namespace is None && e == MetadataError::MissingPoolNamespace
    }
}

/// Settings that are marked for a pool keep name, size, sizes and tags. They hold each
/// taint that was asked for, in order, and last the pool's own; and each label that was
/// asked for, with the pool's own holding the full name.
pub proof fn law_marked_settings(
    settings: NodePoolSettings,
    pool: ManagedNodePool,
    patched: Result<NodePoolSettings, MetadataError>,
)
    requires
        call_ensures(crate::pool::patch_pool_settings, (settings, &pool), patched),
    ensures
        match patched {
            Err(e) => unmarkable(pool, e),
            Ok(marked) => {
                let taints = marked.taints->0@;
                let asked = match settings.taints {
                    Some(asked) => asked@,
                    None => Seq::empty(),
                };
                let labels = match settings.labels {
                    Some(labels) => labels@,
                    None => Map::empty(),
                };
                let key = "dgolubets.github.io/managed-node-pool"@;
                &&& pool.metadata.uid is Some
                &&& pool.metadata.name is Some
                &&& pool.metadata.namespace is Some
                &&& marked.name@ == settings.name@
                &&& marked.size@ == settings.size@
                &&& marked.count == settings.count
                &&& marked.min_count == settings.min_count
                &&& marked.max_count == settings.max_count
                &&& marked@.tags == settings@.tags
                &&& marked.taints is Some
                &&& taints.len() == asked.len() + 1
                &&& forall|i: int|
                    0 <= i < asked.len() ==> (#[trigger] taints[i]).key@ == asked[i].key@
                        && taints[i].value@ == asked[i].value@ && taints[i].effect@
                        == asked[i].effect@
                &&& taints.last().key@ == key
                &&& taints.last().value@ == pool.metadata.uid->0@
                &&& taints.last().effect@ == "NoSchedule"@
                &&& marked.labels is Some
                &&& marked.labels->0@.contains_key(key)
                &&& marked.labels->0@[key] == pool.metadata.name->0@ + seq!['.']
                    + pool.metadata.namespace->0@
                &&& forall|k: Seq<char>|
                    k != key ==> (#[trigger] marked.labels->0@.contains_key(k)
                        <==> labels.contains_key(k)) && (labels.contains_key(k)
                        ==> marked.labels->0@[k] == labels[k])
            },
        },
{
    law_settings_view(settings);
    if let Ok(marked) = patched {
        law_settings_view(marked);
        let seen = marked@.taints->0;
        let taints = marked.taints->0@;
        assert(seen.len() == taints.len());
        if let Some(asked) = settings.taints {
            assert forall|i: int| 0 <= i < asked@.len() implies (#[trigger] taints[i]).key@
                == asked@[i].key@ && taints[i].value@ == asked@[i].value@ && taints[i].effect@
                == asked@[i].effect@ by {
                assert(seen[i] == settings@.taints->0[i]);
            }
        }
        assert(seen[seen.len() - 1].key == taints[taints.len() - 1].key@);
    }
}

/// Whether a map holds this value under the key of managed pools.
pub open spec fn holds(map: Option<Labels>, value: Seq<char>) -> bool {
    map matches Some(entries) && entries@.contains_key("dgolubets.github.io/managed-node-pool"@)
        && entries@["dgolubets.github.io/managed-node-pool"@] == value
}

/// Whether a map holds no value under the key of managed pools.
pub open spec fn lacks(map: Option<Labels>) -> bool {
    map matches Some(entries) ==> !entries@.contains_key("dgolubets.github.io/managed-node-pool"@)
}

/// Whether the pod names a pool by this text: by its label or, without one, by its node
/// selector.
pub open spec fn carries(pod: Pod, value: Seq<char>) -> bool {
    ||| holds(pod.metadata.labels, value)
    ||| lacks(pod.metadata.labels) && pod.spec is Some && holds(pod.spec->0.node_selector, value)
}

/// A pod counts as labeled exactly where its labels hold the key of managed pools,
/// whatever else it carries.
pub proof fn law_label_is_seen(pod: Pod, labeled: bool)
    requires
        call_ensures(crate::pods::has_pool_label, (&pod,), labeled),
    ensures
        labeled <==> !lacks(pod.metadata.labels),
{
}

/// A pod refers to the pool that its text names: put together with a dot, the name,
/// which holds none, and the namespace give the text. A pod refers to none only where it
/// names none, or by a text without a dot.
pub proof fn law_reference(pod: Pod, obj_ref: Option<ObjectRef>, value: Seq<char>)
    requires
        call_ensures(crate::pods::find_pool_ref, (&pod,), obj_ref),
    ensures
        carries(pod, value) ==> match obj_ref {
            Some(found) => !found.name@.contains('.') && found.namespace is Some && value
                == found.name@ + seq!['.'] + found.namespace->0@,
            None => !value.contains('.'),
        },
        lacks(pod.metadata.labels) && (pod.spec matches Some(pod_spec) ==> lacks(
            pod_spec.node_selector,
        )) ==> obj_ref is None,
{
    law_pod_view(pod);
    law_metadata_view(pod.metadata);
    if carries(pod, value) {
        assert(crate::pods::requested_pool(pod@) == Some(value));
        value.index_of_first_ensures('.');
        if let Some(found) = obj_ref {
            law_reference_view(found);
            let dot = value.index_of_first('.')->0;
            assert(found.name@ =~= value.subrange(0, dot));
            assert(value =~= found.name@ + seq!['.'] + found.namespace->0@);
            if found.name@.contains('.') {
                let i = choose|i: int| 0 <= i < found.name@.len() && found.name@[i] == '.';
                assert(value[i] == '.');
            }
        }
    }
}

/// A reference is to a pool exactly where both name and namespace are the same.
pub proof fn law_reference_is_to_pool(pool: ManagedNodePool, obj_ref: ObjectRef, same: bool)
    requires
        call_ensures(crate::pods::matches_pool_ref, (&pool, &obj_ref), same),
    ensures
        same <==> (pool.metadata.name matches Some(name) && name@ == obj_ref.name@) && (match (
            pool.metadata.namespace,
            obj_ref.namespace,
        ) {
            (Some(own), Some(other)) => own@ == other@,
            (None, None) => true,
            _ => false,
        }),
{
}

/// Whether the pod has not finished and names the pool by its full name.
pub open spec fn needs(pod: Pod, pool: ManagedNodePool) -> bool {
    &&& pod.phase matches Some(phase) ==> phase@ != "Succeeded"@ && phase@ != "Failed"@
    &&& pool.metadata.name is Some
    &&& pool.metadata.namespace is Some
    &&& carries(pod, pool.metadata.name->0@ + seq!['.'] + pool.metadata.namespace->0@)
}

proof fn lemma_needs(pod: Pod, pool: ManagedNodePool)
    ensures
        crate::pods::labeled_keeps_up(pod@, pool@) == needs(pod, pool),
        crate::pods::keeps_up(pod@, pool@) == (needs(pod, pool)
            && !pool.metadata.name->0@.contains('.')),
{
    law_pod_view(pod);
    law_metadata_view(pod.metadata);
    law_metadata_view(pool.metadata);
    if let Some(value) = crate::pods::requested_pool(pod@) {
        assert(carries(pod, value));
        value.index_of_first_ensures('.');
        if let Some(dot) = value.index_of_first('.') {
            let name = value.subrange(0, dot);
            let namespace = value.subrange(dot + 1, value.len() as int);
            assert(value =~= name + seq!['.'] + namespace);
            if name.contains('.') {
                let i = choose|i: int| 0 <= i < name.len() && name[i] == '.';
                assert(value[i] == '.');
            }
        }
        if pool.metadata.name is Some && pool.metadata.namespace is Some {
            let name = pool.metadata.name->0@;
            if value == name + seq!['.'] + pool.metadata.namespace->0@ && !name.contains('.') {
                crate::laws::law_full_name_leads_back(pool@);
            }
        }
    }
}

/// Out of no pods none is listed.
pub proof fn law_no_pod_is_made_up(
    labeled: Vec<Pod>,
    pending: Vec<Pod>,
    pool: ManagedNodePool,
    listed: Vec<Pod>,
)
    requires
        labeled@.len() == 0,
        pending@.len() == 0,
        call_ensures(crate::pods::list_pods, (labeled, pending, &pool), listed),
    ensures
        listed@.len() == 0,
{
    reveal(Seq::filter);
    lemma_elements(listed);
}

/// One more labeled pod is listed, after those before it, exactly where it has not
/// finished and names the pool by its full name, whatever else it carries.
pub proof fn law_labeled_pod_is_listed(
    labeled: Vec<Pod>,
    longer: Vec<Pod>,
    pod: Pod,
    pending: Vec<Pod>,
    pool: ManagedNodePool,
    listed: Vec<Pod>,
    relisted: Vec<Pod>,
)
    requires
        longer@ == labeled@.push(pod),
        pending@.len() == 0,
        call_ensures(crate::pods::list_pods, (labeled, pending, &pool), listed),
        call_ensures(crate::pods::list_pods, (longer, pending, &pool), relisted),
    ensures
        needs(pod, pool) ==> relisted.deep_view() == listed.deep_view().push(pod@),
        !needs(pod, pool) ==> relisted.deep_view() == listed.deep_view(),
{
    reveal(Seq::filter);
    lemma_needs(pod, pool);
    assert(pending.deep_view() =~= Seq::empty());
    assert(longer.deep_view().drop_last() =~= labeled.deep_view());
    assert(longer.deep_view().last() == pod@);
}

/// One more pending pod is listed, after all those before it, exactly where it has not
/// finished, names the pool by its full name, and the pool's name holds no dot.
pub proof fn law_pending_pod_is_listed(
    labeled: Vec<Pod>,
    pending: Vec<Pod>,
    longer: Vec<Pod>,
    pod: Pod,
    pool: ManagedNodePool,
    listed: Vec<Pod>,
    relisted: Vec<Pod>,
)
    requires
        longer@ == pending@.push(pod),
        call_ensures(crate::pods::list_pods, (labeled, pending, &pool), listed),
        call_ensures(crate::pods::list_pods, (labeled, longer, &pool), relisted),
    ensures
        needs(pod, pool) && !pool.metadata.name->0@.contains('.') ==> relisted.deep_view()
            == listed.deep_view().push(pod@),
        !(needs(pod, pool) && !pool.metadata.name->0@.contains('.')) ==> relisted.deep_view()
            == listed.deep_view(),
{
    reveal(Seq::filter);
    lemma_needs(pod, pool);
    assert(longer.deep_view().drop_last() =~= pending.deep_view());
    assert(longer.deep_view().last() == pod@);
}

/// A pod whose phase is neither `Succeeded` nor `Failed` and whose label holds the pool's
/// full name is listed, whatever else it carries and whatever other pods there are.
pub proof fn law_unfinished_pod_is_listed(
    labeled: Vec<Pod>,
    pending: Vec<Pod>,
    pool: ManagedNodePool,
    listed: Vec<Pod>,
    i: int,
)
    requires
        call_ensures(crate::pods::list_pods, (labeled, pending, &pool), listed),
        0 <= i < labeled@.len(),
        labeled@[i].phase matches Some(phase) ==> phase@ != "Succeeded"@ && phase@ != "Failed"@,
        pool.metadata.name is Some,
        pool.metadata.namespace is Some,
        holds(
            labeled@[i].metadata.labels,
            pool.metadata.name->0@ + seq!['.'] + pool.metadata.namespace->0@,
        ),
    ensures
        listed.deep_view().contains(labeled@[i]@),
{
    let pod = labeled@[i];
    lemma_needs(pod, pool);
    lemma_elements(labeled);
    assert(labeled.deep_view()[i] == pod@);
    let keeping = |pod: PodView| crate::pods::labeled_keeps_up(pod, pool@);
    labeled.deep_view().lemma_filter_contains(keeping, i);
    let kept = labeled.deep_view().filter(keeping);
    let j = choose|j: int| 0 <= j < kept.len() && kept[j] == pod@;
    assert(listed.deep_view()[j] == pod@);
}

/// The patch of a pod addresses that pod, in every phase of it. It holds the pool's full
/// name as its only label, tolerates the pool's taint and nothing else, and touches
/// nothing more. It lacks only where the pool's name, namespace or uid is missing, and
/// they are missed in this order.
pub proof fn law_patch_addresses_pod(
    pod: Pod,
    pool: ManagedNodePool,
    patch: Result<Pod, MetadataError>,
)
    requires
        call_ensures(crate::pods::patch_pod, (&pod, &pool), patch),
    ensures
        match patch {
            Err(e) => if pool.metadata.name is None {
                e == MetadataError::MissingPoolName
            } else if pool.metadata.namespace is None {
                e == MetadataError::MissingPoolNamespace
            } else {
                pool.metadata.uid is None && e == MetadataError::MissingPoolUid
            },
            Ok(made) => {
                let key = "dgolubets.github.io/managed-node-pool"@;
                let tolerated = made.spec->0.tolerations->0@;
                &&& pool.metadata.name is Some
                &&& pool.metadata.namespace is Some
                &&& pool.metadata.uid is Some
                &&& made@.metadata.name == pod@.metadata.name
                &&& made@.metadata.namespace == pod@.metadata.namespace
                &&& made.metadata.name is Some <==> pod.metadata.name is Some
                &&& made.metadata.name matches Some(name) ==> name@ == pod.metadata.name->0@
                &&& made.metadata.namespace is Some <==> pod.metadata.namespace is Some
                &&& made.metadata.namespace matches Some(namespace) ==> namespace@
                    == pod.metadata.namespace->0@
                &&& made.metadata.uid is None
                &&& made.phase is None
                &&& holds(
                    made.metadata.labels,
                    pool.metadata.name->0@ + seq!['.'] + pool.metadata.namespace->0@,
                )
                &&& forall|k: Seq<char>| #[trigger]
                    made.metadata.labels->0@.contains_key(k) ==> k == key
                &&& made.spec is Some
                &&& made.spec->0.node_selector is None
                &&& made.spec->0.tolerations is Some
                &&& tolerated.len() == 1
                &&& shows(Some("NoSchedule"@), tolerated[0].effect)
                &&& shows(Some(key), tolerated[0].key)
                &&& shows(Some("Equal"@), tolerated[0].operator)
                &&& shows(Some(pool.metadata.uid->0@), tolerated[0].value)
            },
        },
{
    law_pod_view(pod);
    law_metadata_view(pod.metadata);
    law_metadata_view(pool.metadata);
    if let Ok(made) = patch {
        law_pod_view(made);
        law_metadata_view(made.metadata);
        let seen = made@.spec->0.tolerations->0;
        assert(seen[0].key == Some("dgolubets.github.io/managed-node-pool"@));
    }
}

/// Whether the body holds, field by field, what is asked for. The pool scales itself
/// exactly where a bound is asked for.
pub open spec fn sent_as_asked(settings: NodePoolSettings, body: DoNodePoolSettings) -> bool {
    &&& body.name@ == settings.name@
    &&& body.size@ == settings.size@
    &&& body.count == settings.count
    &&& body.min_nodes == settings.min_count
    &&& body.max_nodes == settings.max_count
    &&& body.auto_scale == Some(settings.min_count is Some || settings.max_count is Some)
    &&& body.tags is Some <==> settings.tags is Some
    &&& body.tags matches Some(tags) ==> tags@.len() == settings.tags->0@.len() && forall|i: int|
        0 <= i < tags@.len() ==> (#[trigger] tags@[i])@ == settings.tags->0@[i]@
    &&& body.labels is Some <==> settings.labels is Some
    &&& body.labels matches Some(labels) ==> labels@ == settings.labels->0@
    &&& body.taints is Some <==> settings.taints is Some
    &&& body.taints matches Some(taints) ==> taints@.len() == settings.taints->0@.len()
        && forall|i: int|
        0 <= i < taints@.len() ==> (#[trigger] taints@[i]).key@ == settings.taints->0@[i].key@
            && taints@[i].value@ == settings.taints->0@[i].value@ && taints@[i].effect@
            == settings.taints->0@[i].effect@
}

/// Whether the settings hold, field by field, what was reported. A bound counts only
/// where the pool scales itself.
pub open spec fn read_as_reported(reported: DoNodePoolSettings, settings: NodePoolSettings) -> bool {
    &&& settings.name@ == reported.name@
    &&& settings.size@ == reported.size@
    &&& settings.count == reported.count
    &&& reported.auto_scale == Some(true) ==> settings.min_count == reported.min_nodes
        && settings.max_count == reported.max_nodes
    &&& reported.auto_scale != Some(true) ==> settings.min_count is None
        && settings.max_count is None
    &&& settings.tags is Some <==> reported.tags is Some
    &&& settings.tags matches Some(tags) ==> tags@.len() == reported.tags->0@.len()
        && forall|i: int|
        0 <= i < tags@.len() ==> (#[trigger] tags@[i])@ == reported.tags->0@[i]@
    &&& settings.labels is Some <==> reported.labels is Some
    &&& settings.labels matches Some(labels) ==> labels@ == reported.labels->0@
    &&& settings.taints is Some <==> reported.taints is Some
    &&& settings.taints matches Some(taints) ==> taints@.len() == reported.taints->0@.len()
        && forall|i: int|
        0 <= i < taints@.len() ==> (#[trigger] taints@[i]).key@ == reported.taints->0@[i].key@
            && taints@[i].value@ == reported.taints->0@[i].value@ && taints@[i].effect@
            == reported.taints->0@[i].effect@
}

/// The view of DigitalOcean's settings shows each field.
pub proof fn law_do_settings_view(settings: DoNodePoolSettings)
    ensures
        settings@.name == settings.name@,
        settings@.size == settings.size@,
        settings@.count == settings.count,
        settings@.auto_scale == settings.auto_scale,
        settings@.min_nodes == settings.min_nodes,
        settings@.max_nodes == settings.max_nodes,
        match settings.tags {
            Some(tags) => settings@.tags matches Some(seen) && seen.len() == tags@.len()
                && forall|i: int| 0 <= i < tags@.len() ==> #[trigger] seen[i] == tags@[i]@,
            None => settings@.tags is None,
        },
        match settings.labels {
            Some(labels) => settings@.labels == Some(labels@),
            None => settings@.labels is None,
        },
        match settings.taints {
            Some(taints) => settings@.taints matches Some(seen) && seen.len() == taints@.len()
                && forall|i: int|
                0 <= i < taints@.len() ==> (#[trigger] seen[i]).key == taints@[i].key@
                    && seen[i].value == taints@[i].value@ && seen[i].effect == taints@[i].effect@,
            None => settings@.taints is None,
        },
{
    if let Some(tags) = settings.tags {
        lemma_elements(tags);
    }
    if let Some(taints) = settings.taints {
        lemma_elements(taints);
    }
}

proof fn lemma_sent(settings: NodePoolSettings, body: DoNodePoolSettings)
    requires
        body@ == crate::digital_ocean::do_settings(settings@),
    ensures
        sent_as_asked(settings, body),
{
    law_settings_view(settings);
    law_do_settings_view(body);
    if let Some(tags) = body.tags {
        assert forall|i: int| 0 <= i < tags@.len() implies (#[trigger] tags@[i])@
            == settings.tags->0@[i]@ by {
            assert(body@.tags->0[i] == settings@.tags->0[i]);
        }
    }
    if let Some(taints) = body.taints {
        assert forall|i: int| 0 <= i < taints@.len() implies (#[trigger] taints@[i]).key@
            == settings.taints->0@[i].key@ && taints@[i].value@ == settings.taints->0@[i].value@
            && taints@[i].effect@ == settings.taints->0@[i].effect@ by {
            assert(body@.taints->0[i] == settings@.taints->0[i]);
        }
    }
}

proof fn lemma_read(reported: DoNodePoolSettings, settings: NodePoolSettings)
    requires
        settings@ == crate::digital_ocean::plain_settings(reported@),
    ensures
        read_as_reported(reported, settings),
{
    law_settings_view(settings);
    law_do_settings_view(reported);
    if let Some(tags) = settings.tags {
        assert forall|i: int| 0 <= i < tags@.len() implies (#[trigger] tags@[i])@
            == reported.tags->0@[i]@ by {
            assert(settings@.tags->0[i] == reported@.tags->0[i]);
        }
    }
    if let Some(taints) = settings.taints {
        assert forall|i: int| 0 <= i < taints@.len() implies (#[trigger] taints@[i]).key@
            == reported.taints->0@[i].key@ && taints@[i].value@ == reported.taints->0@[i].value@
            && taints@[i].effect@ == reported.taints->0@[i].effect@ by {
            assert(settings@.taints->0[i] == reported@.taints->0[i]);
        }
    }
}

/// Settings are put into DigitalOcean's terms field by field.
pub proof fn law_settings_are_sent_as_asked(settings: NodePoolSettings, sent: DoNodePoolSettings)
    requires
        call_ensures(crate::digital_ocean::to_do_settings, (&settings,), sent),
    ensures
        sent_as_asked(settings, sent),
{
    lemma_sent(settings, sent);
}

/// Settings are taken out of DigitalOcean's terms field by field.
pub proof fn law_settings_are_read_as_reported(
    reported: DoNodePoolSettings,
    settings: NodePoolSettings,
)
    requires
        call_ensures(crate::digital_ocean::from_do_pool_settings, (reported,), settings),
    ensures
        read_as_reported(reported, settings),
{
    lemma_read(reported, settings);
}

/// A node pool is read with its id and its settings, where it is the only one and where
/// it is one of a listing, whose order is kept.
pub proof fn law_pools_are_read_as_reported(
    reported: DoNodePool,
    pool: NodePool,
    carried: Option<DoNodePool>,
    found: Option<NodePool>,
    listing: Vec<DoNodePool>,
    pools: Vec<NodePool>,
)
    requires
        call_ensures(crate::digital_ocean::from_do_pool, (reported,), pool),
        call_ensures(crate::digital_ocean::found_pool, (carried,), found),
        call_ensures(crate::digital_ocean::from_do_pools, (listing,), pools),
    ensures
        pool.id@ == reported.id@ && read_as_reported(reported.settings, pool.settings),
        found is Some <==> carried is Some,
        found matches Some(it) ==> it.id@ == carried->0.id@ && read_as_reported(
            carried->0.settings,
            it.settings,
        ),
        pools@.len() == listing@.len(),
        forall|i: int|
            0 <= i < pools@.len() ==> (#[trigger] pools@[i]).id@ == listing@[i].id@
                && read_as_reported(listing@[i].settings, pools@[i].settings),
{
    lemma_read(reported.settings, pool.settings);
    if let Some(it) = found {
        lemma_read(carried->0.settings, it.settings);
    }
    lemma_elements(listing);
    lemma_elements(pools);
    assert forall|i: int| 0 <= i < pools@.len() implies (#[trigger] pools@[i]).id@
        == listing@[i].id@ && read_as_reported(listing@[i].settings, pools@[i].settings) by {
        assert(pools.deep_view()[i] == pools@[i]@);
        assert(listing.deep_view()[i] == listing@[i]@);
        lemma_read(listing@[i].settings, pools@[i].settings);
    }
}

/// Whether the request goes to this address of the API, with this token and method.
pub open spec fn goes_to(
    request: HttpRequest,
    method: Method,
    settings: DigitalOceanSettings,
    path: Seq<char>,
) -> bool {
    &&& request.method == method
    &&& request.bearer_token@ == settings.token@
    &&& request.url@ == "https://api.digitalocean.com/v2/kubernetes/clusters/"@
        + settings.cluster_id@ + "/node_pools"@ + path
}

/// Requests that read and destroy go to the node pools of the cluster or to the one with
/// the id, with the token, and carry nothing.
pub proof fn law_bare_requests(
    settings: DigitalOceanSettings,
    provider: DigitalOcean,
    id: &str,
    list: HttpRequest,
    find: HttpRequest,
    destroy: HttpRequest,
)
    requires
        call_ensures(DigitalOcean::new, (settings,), provider),
        call_ensures(DigitalOcean::list_pools, (&provider,), list),
        call_ensures(DigitalOcean::find_pool_by_id, (&provider, id), find),
        call_ensures(DigitalOcean::destroy_pool_by_id, (&provider, id), destroy),
    ensures
        goes_to(list, Method::Get, settings, Seq::empty()) && list.body is None,
        goes_to(find, Method::Get, settings, seq!['/'] + id@) && find.body is None,
        goes_to(destroy, Method::Delete, settings, seq!['/'] + id@) && destroy.body is None,
{
    lemma_urls(settings.cluster_id@, id@);
}

/// Requests that create and update go to the node pools of the cluster or to the one
/// with the id, with the token, and carry the settings as asked for.
pub proof fn law_full_requests(
    settings: DigitalOceanSettings,
    provider: DigitalOcean,
    id: &str,
    asked: NodePoolSettings,
    create: HttpRequest,
    update: HttpRequest,
)
    requires
        call_ensures(DigitalOcean::new, (settings,), provider),
        call_ensures(DigitalOcean::create_pool, (&provider, &asked), create),
        call_ensures(DigitalOcean::update_pool_by_id, (&provider, id, &asked), update),
    ensures
        goes_to(create, Method::Post, settings, Seq::empty()),
        create.body matches Some(body) && sent_as_asked(asked, body),
        goes_to(update, Method::Put, settings, seq!['/'] + id@),
        update.body matches Some(body) && sent_as_asked(asked, body),
{
    lemma_urls(settings.cluster_id@, id@);
    lemma_sent(asked, create.body->0);
    lemma_sent(asked, update.body->0);
}

proof fn lemma_urls(cluster_id: Seq<char>, id: Seq<char>)
    ensures
        crate::digital_ocean::node_pools_url(cluster_id)
            == "https://api.digitalocean.com/v2/kubernetes/clusters/"@ + cluster_id + "/node_pools"@
            + Seq::<char>::empty(),
        crate::digital_ocean::node_pool_url(cluster_id, id)
            == "https://api.digitalocean.com/v2/kubernetes/clusters/"@ + cluster_id + "/node_pools"@
            + (seq!['/'] + id),
{
    assert(crate::digital_ocean::node_pools_url(cluster_id)
        =~= "https://api.digitalocean.com/v2/kubernetes/clusters/"@ + cluster_id + "/node_pools"@
        + Seq::<char>::empty());
    assert(crate::digital_ocean::node_pool_url(cluster_id, id)
        =~= "https://api.digitalocean.com/v2/kubernetes/clusters/"@ + cluster_id + "/node_pools"@
        + (seq!['/'] + id));
}

/// Every text that is not empty stands for what the parser of lengths makes of it, and
/// only null and the empty text stand for no timeout.
pub proof fn law_timeout_is_read(field: Option<&str>, timeout: Result<Option<Duration>, String>)
    requires
        call_ensures(crate::timeout::parse_idle_timeout, (field,), timeout),
    ensures
        field is None ==> timeout == Ok::<Option<Duration>, String>(None),
        field matches Some(text) ==> text@.len() == 0 ==> timeout == Ok::<
            Option<Duration>,
            String,
        >(None),
        field matches Some(text) ==> text@.len() > 0 ==> match crate::timeout::parsed_length(
            text@,
        ) {
            Ok((secs, nanos)) => timeout matches Ok(Some(length)) && length@ == secs
                * 1_000_000_000 + nanos,
            Err(message) => timeout matches Err(said) && said@ == message,
        },
{
}

/// A parsed length stands for itself, and a message for itself.
pub proof fn law_parsed_length_is_taken(
    parsed: Result<(u64, u32), String>,
    timeout: Result<Option<Duration>, String>,
)
    requires
        call_ensures(crate::timeout::idle_timeout_from_parsed, (parsed,), timeout),
    ensures
        match parsed {
            Ok((secs, nanos)) => timeout matches Ok(Some(length)) && length@ == secs
                * 1_000_000_000 + nanos,
            Err(message) => timeout matches Err(said) && said@ == message@,
        },
        crate::timeout::parsed_view(parsed) == match parsed {
            Ok(length) => Ok::<(u64, u32), Seq<char>>(length),
            Err(message) => Err(message@),
        },
{
}

/// A sum of a point in time and a length lies as much later, and there is none only past
/// the last nanosecond of the last second that an `i64` counts.
pub proof fn law_time_adds_up(start: Timestamp, length: Duration, end: Option<Timestamp>)
    requires
        call_ensures(Timestamp::checked_add, (&start, length), end),
    ensures
        end matches Some(later) ==> later@ == start@ + length@,
        end is None <==> start@ + length@ > 0x7fff_ffff_ffff_ffff * 1_000_000_000 + 999_999_999,
{
}

/// What has passed between two points in time leads from the one to the other.
pub proof fn law_time_passes(
    start: Timestamp,
    end: Timestamp,
    passed: Option<Duration>,
    sum: Option<Timestamp>,
)
    requires
        call_ensures(Timestamp::duration_since, (&end, &start), passed),
        passed matches Some(length) ==> call_ensures(Timestamp::checked_add, (&start, length), sum),
        end@ <= crate::time::last_timestamp(),
    ensures
        passed is Some <==> start@ <= end@,
        passed is Some ==> (sum matches Some(reached) && reached@ == end@),
{
}

} // verus!
