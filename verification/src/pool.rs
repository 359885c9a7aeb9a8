//! How a managed node pool is named and marked, and what it asks of the cloud.

use crate::labels::Labels;
use crate::model::{
    ManagedNodePool, ManagedNodePoolView, NodePoolSettings, NodePoolSettingsView, NodePoolTaint,
    NodePoolTaintView,
};
use vstd::prelude::*;
use vstd::string::*;

verus! {

/// The label that ties pods and nodes to their managed node pool. It is also the
/// key of the pool's taint, and the name under which the operator writes.
pub const LABEL_MANAGED_NODE_POOL: &'static str = "dgolubets.github.io/managed-node-pool";

/// The effect of the pool's taint, and of the toleration that answers it.
pub const EFFECT_NO_SCHEDULE: &'static str = "NoSchedule";

pub const API_VERSION: &'static str = "dgolubets.github.io/v1alpha1";

pub const KIND: &'static str = "ManagedNodePool";

/// A piece of metadata that an object lacks.
#[derive(Clone, Copy, Debug, PartialEq, Eq, Structural)]
pub enum MetadataError {
    MissingPoolName,
    MissingPoolNamespace,
    MissingPoolUid,
    MissingPodName,
    MissingPodNamespace,
}

impl MetadataError {
    pub open spec fn message_text(self) -> Seq<char> {
        match self {
            MetadataError::MissingPoolName => "Missing pool name"@,
            MetadataError::MissingPoolNamespace => "Missing pool namespace"@,
            MetadataError::MissingPoolUid => "Missing pool UID"@,
            MetadataError::MissingPodName => "Missing pod name"@,
            MetadataError::MissingPodNamespace => "Missing pod namespace"@,
        }
    }

    pub fn message(&self) -> (text: &'static str)
        ensures
            text@ == self.message_text(),
    {
        match self {
            MetadataError::MissingPoolName => "Missing pool name",
            MetadataError::MissingPoolNamespace => "Missing pool namespace",
            MetadataError::MissingPoolUid => "Missing pool UID",
            MetadataError::MissingPodName => "Missing pod name",
            MetadataError::MissingPodNamespace => "Missing pod namespace",
        }
    }
}

/// A result with its value replaced by the value's view.
pub open spec fn outcome<T: DeepView, E>(result: Result<T, E>) -> Result<T::V, E> {
    match result {
        Ok(value) => Ok(value.deep_view()),
        Err(e) => Err(e),
    }
}

/// The full name of a pool: its name, a dot and its namespace.
pub open spec fn pool_full_name(pool: ManagedNodePoolView) -> Result<Seq<char>, MetadataError> {
    match (pool.metadata.name, pool.metadata.namespace) {
        (None, _) => Err(MetadataError::MissingPoolName),
        (Some(_), None) => Err(MetadataError::MissingPoolNamespace),
        (Some(name), Some(namespace)) => Ok(name + seq!['.'] + namespace),
    }
}

/// The value of the pool's taint: its uid.
pub open spec fn pool_taint(pool: ManagedNodePoolView) -> Result<Seq<char>, MetadataError> {
    match pool.metadata.uid {
        Some(uid) => Ok(uid),
        None => Err(MetadataError::MissingPoolUid),
    }
}

pub fn get_pool_full_name(pool: &ManagedNodePool) -> (full_name: Result<String, MetadataError>)
    ensures
        outcome(full_name) == pool_full_name(pool@),
{
    match &pool.metadata.name {
        None => Err(MetadataError::MissingPoolName),
        Some(name) => match &pool.metadata.namespace {
            None => Err(MetadataError::MissingPoolNamespace),
            Some(namespace) => {
                proof {
                    reveal_strlit(".");
                    assert("."@ =~= seq!['.']);
                }
                Ok(name.clone().concat(".").concat(namespace.as_str()))
            },
        },
    }
}

pub fn get_pool_taint(pool: &ManagedNodePool) -> (taint: Result<&str, MetadataError>)
    ensures
        outcome(taint) == pool_taint(pool@),
{
    match &pool.metadata.uid {
        Some(uid) => Ok(uid.as_str()),
        None => Err(MetadataError::MissingPoolUid),
    }
}

/// Whether the sizes that the user asks for differ from those the pool has.
/// Nothing else is compared: the cloud may set tags, labels and taints of its
/// own.
pub open spec fn sizes_differ(
    new_settings: NodePoolSettingsView,
    current_settings: NodePoolSettingsView,
) -> bool {
    ||| new_settings.count != current_settings.count
    ||| new_settings.min_count != current_settings.min_count
    ||| new_settings.max_count != current_settings.max_count
}

pub fn needs_update(
    new_settings: &NodePoolSettings,
    current_settings: &NodePoolSettings,
) -> (b: bool)
    ensures
        b == sizes_differ(new_settings@, current_settings@),
{
    new_settings.count != current_settings.count || new_settings.min_count
        != current_settings.min_count || new_settings.max_count != current_settings.max_count
}

/// The taint that keeps pods that are not assigned to the pool off its nodes.
pub open spec fn own_taint(uid: Seq<char>) -> NodePoolTaintView {
    NodePoolTaintView {
        key: LABEL_MANAGED_NODE_POOL@,
        value: uid,
        effect: EFFECT_NO_SCHEDULE@,
    }
}

/// The settings marked as those of the pool with this uid and full name: the
/// pool's taint comes last, its label holds the full name, all else stays.
pub open spec fn marked_settings(
    settings: NodePoolSettingsView,
    uid: Seq<char>,
    full_name: Seq<char>,
) -> NodePoolSettingsView {
    NodePoolSettingsView {
        taints: Some(
            match settings.taints {
                Some(taints) => taints,
                None => Seq::empty(),
            }.push(own_taint(uid)),
        ),
        labels: Some(
            match settings.labels {
                Some(labels) => labels,
                None => Map::empty(),
            }.insert(LABEL_MANAGED_NODE_POOL@, full_name),
        ),
        ..settings
    }
}

/// The settings under which the pool is created and updated.
pub open spec fn patched_settings(
    settings: NodePoolSettingsView,
    pool: ManagedNodePoolView,
) -> Result<NodePoolSettingsView, MetadataError> {
    match (pool_taint(pool), pool_full_name(pool)) {
        (Err(e), _) => Err(e),
        (Ok(_), Err(e)) => Err(e),
        (Ok(uid), Ok(full_name)) => Ok(marked_settings(settings, uid, full_name)),
    }
}

pub fn patch_pool_settings(settings: NodePoolSettings, pool: &ManagedNodePool) -> (patched: Result<
    NodePoolSettings,
    MetadataError,
>)
    ensures
        outcome(patched) == patched_settings(settings@, pool@),
{
    let ghost before = settings@;
    let uid = match get_pool_taint(pool) {
        Ok(uid) => uid.to_owned(),
        Err(e) => {
            return Err(e);
        },
    };
    let full_name = match get_pool_full_name(pool) {
        Ok(full_name) => full_name,
        Err(e) => {
            return Err(e);
        },
    };
    let NodePoolSettings { name, size, count, min_count, max_count, tags, labels, taints } =
        settings;
    let mut taints: Vec<NodePoolTaint> = match taints {
        Some(taints) => taints,
        None => Vec::new(),
    };
    let ghost taints_before = taints;
    taints.push(
        NodePoolTaint {
            key: LABEL_MANAGED_NODE_POOL.to_owned(),
            value: uid,
            effect: EFFECT_NO_SCHEDULE.to_owned(),
        },
    );
    let mut labels: Labels = match labels {
        Some(labels) => labels,
        None => Labels::new(),
    };
    labels.insert(LABEL_MANAGED_NODE_POOL.to_owned(), full_name);
    let patched = NodePoolSettings {
        name,
        size,
        count,
        min_count,
        max_count,
        tags,
        labels: Some(labels),
        taints: Some(taints),
    };
    proof {
        assert(taints.deep_view() =~= taints_before.deep_view().push(own_taint(uid@)));
        if before.taints is None {
            assert(taints_before.deep_view() =~= Seq::empty());
        }
        assert(patched@ =~= marked_settings(before, uid@, full_name@));
    }
    Ok(patched)
}

/// Where the status of a pool is written: its namespace and its name.
pub fn pool_location(pool: &ManagedNodePool) -> (location: Result<
    (String, String),
    MetadataError,
>)
    ensures
        match (pool@.metadata.name, pool@.metadata.namespace) {
            (None, _) => location == Err::<(String, String), _>(MetadataError::MissingPoolName),
            (Some(_), None) => location == Err::<(String, String), _>(
                MetadataError::MissingPoolNamespace,
            ),
            (Some(name), Some(namespace)) => location matches Ok(l) && l.0@ == namespace && l.1@
                == name,
        },
{
    match &pool.metadata.name {
        None => Err(MetadataError::MissingPoolName),
        Some(name) => match &pool.metadata.namespace {
            None => Err(MetadataError::MissingPoolNamespace),
            Some(namespace) => Ok((namespace.clone(), name.clone())),
        },
    }
}

} // verus!
