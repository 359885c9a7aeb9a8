use managed_node_pool::labels::Labels;
use managed_node_pool::model::{
    ManagedNodePool, ManagedNodePoolSpec, ManagedNodePoolStatus, NodePool, NodePoolSettings,
    NodePoolStatus, NodePoolTaint, ObjectMeta, Pod, PodSpec,
};
use managed_node_pool::operator::{
    Action, Event, Operator, OperatorError, Progress, Reply, Request, DEBOUNCE_SECS, FINALIZER_NAME,
};
use managed_node_pool::pods::FIELD_SELECTOR_PENDING;
use managed_node_pool::pool::{pool_location, MetadataError, LABEL_MANAGED_NODE_POOL};
use managed_node_pool::time::{Duration, Timestamp};
use managed_node_pool::timeout::parse_idle_timeout;
use std::sync::Arc;
use std::time::{SystemTime, UNIX_EPOCH};

type Outcome = Result<Action, OperatorError<String>>;

fn text(s: &str) -> Option<String> {
    Some(s.to_string())
}

fn one_label(key: &str, value: &str) -> Labels {
    let mut labels = Labels::new();
    labels.insert(key.to_string(), value.to_string());
    labels
}

fn default_settings() -> NodePoolSettings {
    NodePoolSettings {
        name: "test-pool-1".to_string(),
        size: "vm-small".to_string(),
        count: 1,
        min_count: None,
        max_count: None,
        tags: None,
        labels: None,
        taints: None,
    }
}

fn taint(key: &str, value: &str) -> NodePoolTaint {
    NodePoolTaint {
        key: key.to_string(),
        value: value.to_string(),
        effect: "NoSchedule".to_string(),
    }
}

fn pool(
    uid: Option<&str>,
    namespace: &str,
    settings: NodePoolSettings,
    idle_timeout: Option<Duration>,
    status: Option<ManagedNodePoolStatus>,
) -> Arc<ManagedNodePool> {
    Arc::new(ManagedNodePool {
        metadata: ObjectMeta {
            uid: uid.map(|u| u.to_string()),
            name: text("pool1"),
            namespace: text(namespace),
            ..Default::default()
        },
        spec: ManagedNodePoolSpec {
            settings,
            idle_timeout,
        },
        status,
    })
}

fn recorded(id: &str) -> Option<ManagedNodePoolStatus> {
    Some(ManagedNodePoolStatus {
        node_pool_id: text(id),
        ..Default::default()
    })
}

fn node_pool(id: &str, settings: NodePoolSettings) -> NodePool {
    NodePool {
        id: id.to_string(),
        settings,
    }
}

fn named_pod(name: &str) -> Pod {
    Pod {
        metadata: ObjectMeta {
            name: text(name),
            namespace: Some(format!("{}_namespace", name)),
            ..Default::default()
        },
        spec: None,
        phase: None,
    }
}

fn selecting_pod(name: &str, full_name: &str) -> Pod {
    Pod {
        spec: Some(PodSpec {
            node_selector: Some(one_label(LABEL_MANAGED_NODE_POOL, full_name)),
            ..Default::default()
        }),
        ..named_pod(name)
    }
}

fn labeled_pod(full_name: &str) -> Pod {
    Pod {
        metadata: ObjectMeta {
            labels: Some(one_label(LABEL_MANAGED_NODE_POOL, full_name)),
            ..Default::default()
        },
        spec: None,
        phase: None,
    }
}

fn in_phase(phase: &str, pod: Pod) -> Pod {
    Pod {
        phase: text(phase),
        ..pod
    }
}

fn operator() -> Operator<(), ()> {
    Operator {
        client: Arc::new(()),
        cloud_provider: Arc::new(()),
    }
}

/// Performs each request by `perform` until the pass is over.
fn drive(
    start: Progress<String>,
    mut perform: impl FnMut(Request) -> Reply<String>,
) -> Outcome {
    let mut progress = start;
    loop {
        match progress {
            Progress::Done(outcome) => return outcome,
            Progress::Pending(session) => {
                let reply = perform(session.request());
                assert!(session.can_resume(&reply));
                progress = session.resume(reply);
            }
        }
    }
}

fn assert_requeue(outcome: Outcome, secs: u64) {
    assert_eq!(
        outcome.unwrap(),
        Action::Requeue(Duration::from_secs(secs))
    );
}

/// The status is written to the pool under test.
fn assert_location(pool: &ManagedNodePool, namespace: &str) {
    assert_eq!(
        pool_location(pool),
        Ok((namespace.to_string(), "pool1".to_string()))
    );
}

fn assert_manager(manager: &str) {
    assert_eq!(manager, "dgolubets.github.io/managed-node-pool");
}

#[test]
fn when_spec_updated_update_node_pool() {
    let mut current_settings = default_settings();
    current_settings.labels = Some(one_label("external_label1", "value1"));

    let updated_settings = NodePoolSettings {
        name: "test-pool-1".to_string(),
        size: "vm-large".to_string(),
        count: 2,
        min_count: None,
        max_count: None,
        tags: Some(vec!["tag1".to_string()]),
        labels: Some(one_label("label1", "value1")),
        taints: Some(vec![taint("taint1", "value1")]),
    };

    // Update should reapply special taint and label
    let mut expected_labels = one_label("label1", "value1");
    expected_labels.insert(
        LABEL_MANAGED_NODE_POOL.to_string(),
        "pool1.pool1_namespace".to_string(),
    );
    let expected_settings = NodePoolSettings {
        labels: Some(expected_labels),
        taints: Some(vec![
            taint("taint1", "value1"),
            taint(LABEL_MANAGED_NODE_POOL, "pool1_uid"),
        ]),
        ..updated_settings.clone()
    };

    let pool = pool(
        Some("pool1_uid"),
        "pool1_namespace",
        updated_settings.clone(),
        None,
        recorded("test-pool-id"),
    );

    let mut updates = 0;
    let outcome = drive(operator().reconcile(pool), |request| match request {
        Request::FindPoolById { id } => {
            assert_eq!(id, "test-pool-id");
            Reply::Found(Some(node_pool("test-pool-id", current_settings.clone())))
        }
        Request::UpdatePoolById { id, settings } => {
            assert_eq!(id, "test-pool-id");
            assert_eq!(settings, expected_settings);
            updates += 1;
            Reply::Updated(node_pool("test-pool-id", updated_settings.clone()))
        }
        Request::ListPodsWithLabels { label_selector } => {
            assert_eq!(label_selector, "dgolubets.github.io/managed-node-pool");
            Reply::Pods(vec![labeled_pod("pool1.pool1_namespace")])
        }
        Request::ListPodsWithFields { field_selector } => {
            assert_eq!(field_selector, "status.phase==Pending");
            Reply::Pods(vec![])
        }
        other => panic!("unexpected request {:?}", other),
    });

    assert_eq!(updates, 1);
    assert_requeue(outcome, 3600);
}

#[test]
fn when_external_labels_updated_not_update_pool() {
    let updated_settings = default_settings();
    let mut current_settings = default_settings();
    current_settings.labels = Some(one_label("label1", "value1"));
    current_settings.taints = Some(vec![taint("taint1", "value1")]);
    current_settings.tags = Some(vec!["tag1".to_string()]);

    let pool = pool(
        None,
        "pool1_namespace",
        updated_settings,
        None,
        recorded("test-pool-id"),
    );

    let outcome = drive(operator().reconcile(pool), |request| match request {
        Request::FindPoolById { id } => {
            assert_eq!(id, "test-pool-id");
            Reply::Found(Some(node_pool("test-pool-id", current_settings.clone())))
        }
        Request::ListPodsWithLabels { label_selector } => {
            assert_eq!(label_selector, "dgolubets.github.io/managed-node-pool");
            Reply::Pods(vec![labeled_pod("pool1.pool1_namespace")])
        }
        Request::ListPodsWithFields { field_selector } => {
            assert_eq!(field_selector, "status.phase==Pending");
            Reply::Pods(vec![])
        }
        other => panic!("unexpected request {:?}", other),
    });

    assert_requeue(outcome, 3600);
}

#[test]
fn when_spec_deleted_destroy_node_pool() {
    let pool = pool(
        None,
        "pool1_namespace",
        default_settings(),
        None,
        recorded("test-pool-id"),
    );

    let mut destroyed = 0;
    let outcome = drive(operator().cleanup(pool), |request| match request {
        Request::DestroyPoolById { id } => {
            assert_eq!(id, "test-pool-id");
            destroyed += 1;
            Reply::Destroyed(true)
        }
        other => panic!("unexpected request {:?}", other),
    });

    assert_eq!(destroyed, 1);
    assert_eq!(outcome.unwrap(), Action::AwaitChange);
}

fn empty_settings() -> NodePoolSettings {
    NodePoolSettings {
        name: "".to_string(),
        size: "".to_string(),
        ..default_settings()
    }
}

#[test]
fn when_no_demand_do_nothing() {
    let pool = pool(None, "namespace1", empty_settings(), None, None);

    let outcome = drive(operator().reconcile(pool), |request| match request {
        Request::ListPodsWithLabels { label_selector } => {
            assert_eq!(label_selector, "dgolubets.github.io/managed-node-pool");
            Reply::Pods(vec![])
        }
        Request::ListPodsWithFields { field_selector } => {
            assert_eq!(field_selector, "status.phase==Pending");
            Reply::Pods(vec![])
        }
        other => panic!("unexpected request {:?}", other),
    });

    assert_requeue(outcome, 3600);
}

#[test]
fn when_pending_pods_dont_match_do_nothing() {
    let pool = pool(None, "namespace1", empty_settings(), None, None);

    let outcome = drive(operator().reconcile(pool), |request| match request {
        Request::ListPodsWithLabels { label_selector } => {
            assert_eq!(label_selector, "dgolubets.github.io/managed-node-pool");
            Reply::Pods(vec![])
        }
        Request::ListPodsWithFields { field_selector } => {
            assert_eq!(field_selector, "status.phase==Pending");
            Reply::Pods(vec![named_pod("pod1"), named_pod("pod2")])
        }
        other => panic!("unexpected request {:?}", other),
    });

    assert_requeue(outcome, 3600);
}

#[test]
fn when_pending_pods_match_patch_them_and_create_pool() {
    let settings = NodePoolSettings {
        tags: Some(vec!["tag1".to_string()]),
        labels: Some(one_label("label1", "value1")),
        taints: Some(vec![taint("taint1", "value1")]),
        ..empty_settings()
    };
    let mut expected_labels = one_label("label1", "value1");
    expected_labels.insert(
        LABEL_MANAGED_NODE_POOL.to_string(),
        "pool1.pool1_namespace".to_string(),
    );
    let expected_settings = NodePoolSettings {
        labels: Some(expected_labels),
        taints: Some(vec![
            taint("taint1", "value1"),
            taint(LABEL_MANAGED_NODE_POOL, "pool1_uid"),
        ]),
        ..settings.clone()
    };
    let pool = pool(Some("pool1_uid"), "pool1_namespace", settings, None, None);
    assert_location(&pool, "pool1_namespace");

    let mut log: Vec<String> = Vec::new();
    let outcome = drive(operator().reconcile(pool), |request| match request {
        Request::ListPodsWithLabels { label_selector } => {
            assert_eq!(label_selector, "dgolubets.github.io/managed-node-pool");
            Reply::Pods(vec![])
        }
        Request::ListPodsWithFields { field_selector } => {
            assert_eq!(field_selector, FIELD_SELECTOR_PENDING);
            Reply::Pods(vec![
                named_pod("pod1"),
                selecting_pod("pod2", "pool1.pool1_namespace"),
            ])
        }
        Request::PatchPod { pod, manager } => {
            assert_eq!(pod.metadata.name.as_deref(), Some("pod2"));
            assert_eq!(pod.metadata.namespace.as_deref(), Some("pod2_namespace"));
            assert_manager(&manager);
            log.push("patch".to_string());
            Reply::Patched
        }
        Request::PatchPoolStatus { status, manager } => {
            assert_manager(&manager);
            assert!(status.destroy_after.is_none());
            log.push(format!("{:?} {:?}", status.node_pool_id, status.node_pool_status));
            Reply::Patched
        }
        Request::CreatePool { settings } => {
            assert_eq!(settings, expected_settings);
            log.push("create".to_string());
            Reply::Created(node_pool("node_pool_id", settings))
        }
        other => panic!("unexpected request {:?}", other),
    });

    assert_eq!(
        log,
        vec![
            "patch",
            "None Some(CREATING)",
            "create",
            "Some(\"node_pool_id\") Some(CREATED)"
        ]
    );
    assert_requeue(outcome, 3600);
}

#[test]
fn when_labelled_pods_and_no_node_pool_create_node_pool() {
    let expected_settings = NodePoolSettings {
        labels: Some(one_label(LABEL_MANAGED_NODE_POOL, "pool1.pool1_namespace")),
        taints: Some(vec![taint(LABEL_MANAGED_NODE_POOL, "pool1_uid")]),
        ..default_settings()
    };
    let pool = pool(
        Some("pool1_uid"),
        "pool1_namespace",
        default_settings(),
        None,
        None,
    );
    assert_location(&pool, "pool1_namespace");

    let mut log: Vec<String> = Vec::new();
    let outcome = drive(operator().reconcile(pool), |request| match request {
        Request::ListPodsWithLabels { label_selector } => {
            assert_eq!(label_selector, "dgolubets.github.io/managed-node-pool");
            Reply::Pods(vec![selecting_pod("pod2", "pool1.pool1_namespace")])
        }
        Request::ListPodsWithFields { field_selector } => {
            assert_eq!(field_selector, FIELD_SELECTOR_PENDING);
            Reply::Pods(vec![])
        }
        Request::PatchPod { pod, manager } => {
            assert_eq!(pod.metadata.name.as_deref(), Some("pod2"));
            assert_eq!(pod.metadata.namespace.as_deref(), Some("pod2_namespace"));
            assert_manager(&manager);
            log.push("patch".to_string());
            Reply::Patched
        }
        Request::PatchPoolStatus { status, manager } => {
            assert_manager(&manager);
            log.push(format!("{:?} {:?}", status.node_pool_id, status.node_pool_status));
            Reply::Patched
        }
        Request::CreatePool { settings } => {
            assert_eq!(settings, expected_settings);
            log.push("create".to_string());
            Reply::Created(node_pool("node_pool_id", settings))
        }
        other => panic!("unexpected request {:?}", other),
    });

    assert_eq!(
        log,
        vec![
            "patch",
            "None Some(CREATING)",
            "create",
            "Some(\"node_pool_id\") Some(CREATED)"
        ]
    );
    assert_requeue(outcome, 3600);
}

fn creating() -> Option<ManagedNodePoolStatus> {
    Some(ManagedNodePoolStatus {
        node_pool_status: Some(NodePoolStatus::CREATING),
        ..Default::default()
    })
}

#[test]
fn when_no_pool_id_recorded_and_status_is_creating_then_sync() {
    let pool = pool(
        Some("pool1_uid"),
        "pool1_namespace",
        default_settings(),
        None,
        creating(),
    );
    assert_location(&pool, "pool1_namespace");

    let mut patches = 0;
    let outcome = drive(operator().reconcile(pool), |request| match request {
        Request::FindPoolByName { name } => {
            assert_eq!(name, "test-pool-1");
            Reply::Found(Some(node_pool("node_pool_id", default_settings())))
        }
        Request::PatchPoolStatus { status, manager } => {
            assert_manager(&manager);
            assert_eq!(status.node_pool_id.as_deref(), Some("node_pool_id"));
            assert_eq!(status.node_pool_status, Some(NodePoolStatus::CREATED));
            patches += 1;
            Reply::Patched
        }
        Request::ListPodsWithLabels { label_selector } => {
            assert_eq!(label_selector, "dgolubets.github.io/managed-node-pool");
            Reply::Pods(vec![labeled_pod("pool1.pool1_namespace")])
        }
        Request::ListPodsWithFields { field_selector } => {
            assert_eq!(field_selector, FIELD_SELECTOR_PENDING);
            Reply::Pods(vec![])
        }
        other => panic!("unexpected request {:?}", other),
    });

    assert_eq!(patches, 1);
    assert_requeue(outcome, 3600);
}

fn idle_pool(destroy_after: Option<Timestamp>, idle_timeout: Option<Duration>) -> Arc<ManagedNodePool> {
    pool(
        Some("pool1_uid"),
        "pool1_namespace",
        default_settings(),
        idle_timeout,
        Some(ManagedNodePoolStatus {
            node_pool_id: text("node_pool_id"),
            node_pool_status: Some(NodePoolStatus::CREATED),
            destroy_after,
        }),
    )
}

/// Runs a pass over an idle pool, and tells what was asked for beyond the
/// lookups.
fn drive_idle(pool: Arc<ManagedNodePool>, mut clock: Vec<Timestamp>) -> (Outcome, Vec<String>) {
    let mut log: Vec<String> = Vec::new();
    clock.reverse();
    let outcome = drive(operator().reconcile(pool), |request| match request {
        Request::FindPoolById { id } => {
            assert_eq!(id, "node_pool_id");
            Reply::Found(Some(node_pool("node_pool_id", default_settings())))
        }
        Request::ListPodsWithLabels { label_selector } => {
            assert_eq!(label_selector, "dgolubets.github.io/managed-node-pool");
            Reply::Pods(vec![])
        }
        Request::ListPodsWithFields { field_selector } => {
            assert_eq!(field_selector, FIELD_SELECTOR_PENDING);
            Reply::Pods(vec![])
        }
        Request::ReadClock => Reply::Clock(clock.pop().unwrap()),
        Request::PatchPoolStatus { status, manager } => {
            assert_manager(&manager);
            log.push(format!(
                "{:?} {:?}",
                status.node_pool_id,
                status.destroy_after.map(|t| (t.secs(), t.subsec_nanos()))
            ));
            Reply::Patched
        }
        Request::DestroyPoolById { id } => {
            assert_eq!(id, "node_pool_id");
            log.push("destroy".to_string());
            Reply::Destroyed(true)
        }
        other => panic!("unexpected request {:?}", other),
    });
    assert!(clock.is_empty());
    (outcome, log)
}

fn now() -> Timestamp {
    let since_epoch = SystemTime::now().duration_since(UNIX_EPOCH).unwrap();
    Timestamp::new(since_epoch.as_secs() as i64, since_epoch.subsec_nanos())
}

#[test]
fn when_node_pool_is_idle_schedule_delete() {
    let pool = idle_pool(None, Some(Duration::from_secs(10)));
    assert_location(&pool, "pool1_namespace");
    let mut patches = 0;
    let outcome = drive(operator().reconcile(pool), |request| match request {
        Request::FindPoolById { id } => {
            assert_eq!(id, "node_pool_id");
            Reply::Found(Some(node_pool("node_pool_id", default_settings())))
        }
        Request::ListPodsWithLabels { label_selector } => {
            assert_eq!(label_selector, "dgolubets.github.io/managed-node-pool");
            Reply::Pods(vec![])
        }
        Request::ListPodsWithFields { field_selector } => {
            assert_eq!(field_selector, FIELD_SELECTOR_PENDING);
            Reply::Pods(vec![])
        }
        Request::ReadClock => Reply::Clock(now()),
        Request::PatchPoolStatus { status, manager } => {
            assert_manager(&manager);
            assert_eq!(status.node_pool_id.as_deref(), Some("node_pool_id"));
            assert!(status.destroy_after.is_some());
            patches += 1;
            Reply::Patched
        }
        other => panic!("unexpected request {:?}", other),
    });
    assert_eq!(patches, 1);
    assert_requeue(outcome, 10);
}

#[test]
fn when_node_pool_is_idle_and_idle_timeout_expires_destroy_node_pool() {
    let pool = idle_pool(Some(now()), Some(Duration::from_secs(10)));
    assert_location(&pool, "pool1_namespace");
    let mut destroyed = 0;
    let mut patches = 0;
    let outcome = drive(operator().reconcile(pool), |request| match request {
        Request::FindPoolById { id } => {
            assert_eq!(id, "node_pool_id");
            Reply::Found(Some(node_pool("node_pool_id", default_settings())))
        }
        Request::DestroyPoolById { id } => {
            assert_eq!(id, "node_pool_id");
            destroyed += 1;
            Reply::Destroyed(true)
        }
        Request::ListPodsWithLabels { label_selector } => {
            assert_eq!(label_selector, "dgolubets.github.io/managed-node-pool");
            Reply::Pods(vec![])
        }
        Request::ListPodsWithFields { field_selector } => {
            assert_eq!(field_selector, FIELD_SELECTOR_PENDING);
            Reply::Pods(vec![])
        }
        Request::ReadClock => Reply::Clock(now()),
        Request::PatchPoolStatus { status, manager } => {
            assert_manager(&manager);
            assert!(status.node_pool_id.is_none());
            assert!(status.destroy_after.is_none());
            patches += 1;
            Reply::Patched
        }
        other => panic!("unexpected request {:?}", other),
    });
    assert_eq!(destroyed, 1);
    assert_eq!(patches, 1);
    assert_requeue(outcome, 3600);
}

#[test]
fn idle_pool_is_scheduled_to_the_nanosecond() {
    let (outcome, log) = drive_idle(
        idle_pool(None, Some(Duration::from_secs(10))),
        vec![Timestamp::new(1_700_000_000, 5)],
    );
    assert_eq!(log, vec!["Some(\"node_pool_id\") Some((1700000010, 5))"]);
    assert_requeue(outcome, 10);
}

#[test]
fn idle_pool_goes_when_its_time_has_come() {
    let end = Timestamp::new(1_700_000_000, 5);
    let (outcome, log) = drive_idle(
        idle_pool(Some(end), Some(Duration::from_secs(10))),
        vec![end],
    );
    assert_eq!(log, vec!["destroy", "None None"]);
    assert_requeue(outcome, 3600);
}

#[test]
fn idle_pool_without_timeout_goes_at_once() {
    let (outcome, log) = drive_idle(idle_pool(None, None), vec![]);
    assert_eq!(log, vec!["destroy", "None None"]);
    assert_requeue(outcome, 3600);
}

#[test]
fn idle_pool_without_timeout_goes_before_its_recorded_time() {
    let (outcome, log) = drive_idle(idle_pool(Some(Timestamp::new(2_000_000_000, 0)), None), vec![]);
    assert_eq!(log, vec!["destroy", "None None"]);
    assert_requeue(outcome, 3600);
}

#[test]
fn idle_pool_stays_for_the_remaining_time() {
    let (outcome, log) = drive_idle(
        idle_pool(
            Some(Timestamp::new(1_700_000_010, 0)),
            Some(Duration::from_secs(10)),
        ),
        vec![
            Timestamp::new(1_700_000_003, 0),
            Timestamp::new(1_700_000_003, 250_000_000),
        ],
    );
    assert!(log.is_empty());
    assert_eq!(
        outcome.unwrap(),
        Action::Requeue(Duration::new(6, 750_000_000))
    );
}

#[test]
fn idle_pool_whose_time_comes_between_two_readings_is_requeued_at_once() {
    let (outcome, log) = drive_idle(
        idle_pool(
            Some(Timestamp::new(1_700_000_010, 0)),
            Some(Duration::from_secs(10)),
        ),
        vec![
            Timestamp::new(1_700_000_009, 999_999_999),
            Timestamp::new(1_700_000_010, 1),
        ],
    );
    assert!(log.is_empty());
    assert_requeue(outcome, 0);
}

#[test]
fn idle_timeout_past_the_last_point_in_time_cannot_be_scheduled() {
    let mut progress: Progress<String> =
        operator().reconcile(idle_pool(None, Some(Duration::from_secs(u64::MAX))));
    loop {
        match progress {
            Progress::Done(_) => panic!("the pass ended early"),
            Progress::Pending(session) => {
                let reply = match session.request() {
                    Request::FindPoolById { .. } => {
                        Reply::Found(Some(node_pool("node_pool_id", default_settings())))
                    }
                    Request::ReadClock => {
                        assert!(!session.can_resume(&Reply::<String>::Clock(Timestamp::new(0, 0))));
                        return;
                    }
                    _ => Reply::Pods(vec![]),
                };
                progress = session.resume(reply);
            }
        }
    }
}

#[test]
fn synced_pool_without_pods_is_left_alone() {
    let pool = pool(
        Some("pool1_uid"),
        "pool1_namespace",
        default_settings(),
        None,
        creating(),
    );
    let outcome = drive(operator().reconcile(pool), |request| match request {
        Request::FindPoolByName { .. } => {
            Reply::Found(Some(node_pool("node_pool_id", default_settings())))
        }
        Request::PatchPoolStatus { .. } => Reply::Patched,
        Request::ListPodsWithLabels { .. } | Request::ListPodsWithFields { .. } => {
            Reply::Pods(vec![])
        }
        other => panic!("unexpected request {:?}", other),
    });
    assert_requeue(outcome, 3600);
}

#[test]
fn pool_that_was_never_created_is_reset_and_created_for_waiting_pods() {
    let pool = pool(
        Some("pool1_uid"),
        "pool1_namespace",
        default_settings(),
        None,
        creating(),
    );
    let mut log: Vec<String> = Vec::new();
    let outcome = drive(operator().reconcile(pool), |request| match request {
        Request::FindPoolByName { .. } => Reply::Found(None),
        Request::PatchPoolStatus { status, .. } => {
            log.push(format!("{:?} {:?}", status.node_pool_id, status.node_pool_status));
            Reply::Patched
        }
        Request::ListPodsWithLabels { .. } => {
            Reply::Pods(vec![labeled_pod("pool1.pool1_namespace")])
        }
        Request::ListPodsWithFields { .. } => Reply::Pods(vec![]),
        Request::CreatePool { settings } => Reply::Created(node_pool("new", settings)),
        other => panic!("unexpected request {:?}", other),
    });
    assert_eq!(
        log,
        vec!["None None", "None Some(CREATING)", "Some(\"new\") Some(CREATED)"]
    );
    assert_requeue(outcome, 3600);
}

#[test]
fn lost_pool_is_reset() {
    let pool = pool(
        Some("pool1_uid"),
        "pool1_namespace",
        default_settings(),
        None,
        recorded("gone"),
    );
    let mut patches = 0;
    let outcome = drive(operator().reconcile(pool), |request| match request {
        Request::FindPoolById { id } => {
            assert_eq!(id, "gone");
            Reply::Found(None)
        }
        Request::PatchPoolStatus { status, .. } => {
            assert!(status.node_pool_id.is_none());
            assert!(status.node_pool_status.is_none());
            assert!(status.destroy_after.is_none());
            patches += 1;
            Reply::Patched
        }
        Request::ListPodsWithLabels { .. } | Request::ListPodsWithFields { .. } => {
            Reply::Pods(vec![])
        }
        other => panic!("unexpected request {:?}", other),
    });
    assert_eq!(patches, 1);
    assert_requeue(outcome, 3600);
}

#[test]
fn each_unlabeled_pod_is_marked_once_and_in_order() {
    let settings = default_settings();
    let pool = pool(
        Some("pool1_uid"),
        "pool1_namespace",
        settings,
        None,
        recorded("node_pool_id"),
    );
    let mut marked: Vec<String> = Vec::new();
    let outcome = drive(operator().reconcile(pool), |request| match request {
        Request::FindPoolById { .. } => {
            Reply::Found(Some(node_pool("node_pool_id", default_settings())))
        }
        Request::ListPodsWithLabels { .. } => Reply::Pods(vec![
            selecting_pod("a", "pool1.pool1_namespace"),
            labeled_pod("pool2.other"),
            selecting_pod("b", "pool2.other"),
            in_phase("Running", selecting_pod("e", "pool1.pool1_namespace")),
            in_phase("Failed", selecting_pod("f", "pool1.pool1_namespace")),
        ]),
        Request::ListPodsWithFields { .. } => Reply::Pods(vec![
            labeled_pod("pool1.pool1_namespace"),
            selecting_pod("c", "pool1.pool1_namespace"),
            selecting_pod("d", "pool2.other"),
        ]),
        Request::PatchPod { pod, .. } => {
            marked.push(pod.metadata.name.unwrap());
            Reply::Patched
        }
        other => panic!("unexpected request {:?}", other),
    });
    assert_eq!(marked, vec!["a", "e", "c"]);
    assert_requeue(outcome, 3600);
}

#[test]
fn failure_ends_the_pass() {
    let pool = pool(None, "namespace1", empty_settings(), None, None);
    let mut calls = 0;
    let outcome = drive(operator().reconcile(pool), |_| {
        calls += 1;
        Reply::Failed("no answer".to_string())
    });
    assert_eq!(calls, 1);
    assert!(matches!(outcome, Err(OperatorError::Call(e)) if e == "no answer"));
}

#[test]
fn reply_of_another_kind_ends_the_pass() {
    let pool = pool(None, "namespace1", empty_settings(), None, None);
    let outcome = drive(operator().reconcile(pool), |_| Reply::Patched);
    assert!(matches!(outcome, Err(OperatorError::UnexpectedReply)));
}

#[test]
fn missing_uid_fails_after_creation_was_announced() {
    let pool = pool(None, "pool1_namespace", default_settings(), None, None);
    let mut patches = 0;
    let outcome = drive(operator().reconcile(pool), |request| match request {
        Request::ListPodsWithLabels { .. } => {
            Reply::Pods(vec![labeled_pod("pool1.pool1_namespace")])
        }
        Request::ListPodsWithFields { .. } => Reply::Pods(vec![]),
        Request::PatchPoolStatus { .. } => {
            patches += 1;
            Reply::Patched
        }
        other => panic!("unexpected request {:?}", other),
    });
    assert_eq!(patches, 1);
    assert!(matches!(
        outcome,
        Err(OperatorError::Metadata(MetadataError::MissingPoolUid))
    ));
}

#[test]
fn missing_uid_fails_an_update_and_a_mark() {
    let mut bigger = default_settings();
    bigger.count = 7;
    let changed = pool(None, "pool1_namespace", bigger, None, recorded("node_pool_id"));
    let outcome = drive(operator().reconcile(changed), |request| match request {
        Request::FindPoolById { .. } => {
            Reply::Found(Some(node_pool("node_pool_id", default_settings())))
        }
        other => panic!("unexpected request {:?}", other),
    });
    assert!(matches!(
        outcome,
        Err(OperatorError::Metadata(MetadataError::MissingPoolUid))
    ));

    let marking = pool(None, "pool1_namespace", default_settings(), None, None);
    let outcome = drive(operator().reconcile(marking), |request| match request {
        Request::ListPodsWithLabels { .. } => {
            Reply::Pods(vec![selecting_pod("a", "pool1.pool1_namespace")])
        }
        Request::ListPodsWithFields { .. } => Reply::Pods(vec![]),
        other => panic!("unexpected request {:?}", other),
    });
    assert!(matches!(
        outcome,
        Err(OperatorError::Metadata(MetadataError::MissingPoolUid))
    ));
}

#[test]
fn cleanup_without_a_recorded_pool_asks_for_nothing() {
    for status in vec![None, creating()] {
        let pool = pool(None, "pool1_namespace", default_settings(), None, status);
        let outcome = drive(operator().cleanup(pool), |request| {
            panic!("unexpected request {:?}", request)
        });
        assert_eq!(outcome.unwrap(), Action::AwaitChange);
    }
}

#[test]
fn events_start_the_pass_they_ask_for() {
    let make = || {
        pool(
            None,
            "pool1_namespace",
            default_settings(),
            None,
            recorded("node_pool_id"),
        )
    };
    let applied: Progress<String> = operator().reconcile_or_cleanup(Event::Apply, make());
    assert!(matches!(applied, Progress::Pending(s) if matches!(s.request(), Request::FindPoolById { .. })));
    let cleaned: Progress<String> = operator().reconcile_or_cleanup(Event::Cleanup, make());
    assert!(matches!(cleaned, Progress::Pending(s) if matches!(s.request(), Request::DestroyPoolById { .. })));
}

#[test]
fn failed_passes_start_again_after_five_seconds() {
    assert_eq!(
        operator().error_policy(),
        Action::Requeue(Duration::from_secs(5))
    );
    assert_eq!(DEBOUNCE_SECS, 5);
    assert_eq!(
        FINALIZER_NAME,
        "dgolubets.github.io/managed-node-pool-cleanup"
    );
}

#[test]
fn namespace_of_a_pool() {
    let named = pool(None, "pool1_namespace", default_settings(), None, None);
    assert_eq!(operator().pool_namespace(&named).unwrap(), "pool1_namespace");
    let mut unnamed = (*named).clone();
    unnamed.metadata.namespace = None;
    assert_eq!(
        operator().pool_namespace(&unnamed),
        Err(MetadataError::MissingPoolNamespace)
    );
}

#[test]
fn idle_timeout_is_honoured_over_two_passes() {
    let timeout = Some(Duration::from_secs(10));
    let first = Timestamp::new(1_700_000_000, 0);
    let (_, log) = drive_idle(idle_pool(None, timeout), vec![first]);
    assert_eq!(log, vec!["Some(\"node_pool_id\") Some((1700000010, 0))"]);

    let end = Some(Timestamp::new(1_700_000_010, 0));
    let early = Timestamp::new(1_700_000_004, 0);
    let (outcome, log) = drive_idle(idle_pool(end, timeout), vec![early, early]);
    assert!(log.is_empty());
    assert_requeue(outcome, 6);

    let late = Timestamp::new(1_700_000_011, 0);
    let (outcome, log) = drive_idle(idle_pool(end, timeout), vec![late]);
    assert_eq!(log, vec!["destroy", "None None"]);
    assert_requeue(outcome, 3600);
}

#[test]
fn lost_pool_is_created_again_for_its_pods() {
    let lost = pool(
        Some("pool1_uid"),
        "pool1_namespace",
        default_settings(),
        None,
        recorded("gone"),
    );
    let mut log: Vec<&str> = Vec::new();
    let outcome = drive(operator().reconcile(lost), |request| match request {
        Request::FindPoolById { .. } => {
            log.push("find");
            Reply::Found(None)
        }
        Request::PatchPoolStatus { .. } => {
            log.push("status");
            Reply::Patched
        }
        Request::ListPodsWithLabels { .. } => Reply::Pods(vec![]),
        Request::ListPodsWithFields { .. } => {
            Reply::Pods(vec![selecting_pod("a", "pool1.pool1_namespace")])
        }
        Request::PatchPod { .. } => {
            log.push("mark");
            Reply::Patched
        }
        Request::CreatePool { settings } => {
            log.push("create");
            Reply::Created(node_pool("new", settings))
        }
        other => panic!("unexpected request {:?}", other),
    });
    assert_eq!(log, vec!["find", "status", "mark", "status", "create", "status"]);
    assert_requeue(outcome, 3600);
}

#[test]
fn updated_pool_that_is_idle_goes() {
    let mut bigger = default_settings();
    bigger.count = 3;
    let changed = pool(
        Some("pool1_uid"),
        "pool1_namespace",
        bigger,
        None,
        recorded("node_pool_id"),
    );
    let mut log: Vec<&str> = Vec::new();
    let outcome = drive(operator().reconcile(changed), |request| match request {
        Request::FindPoolById { .. } => {
            Reply::Found(Some(node_pool("node_pool_id", default_settings())))
        }
        Request::UpdatePoolById { id, settings } => {
            assert_eq!(settings.count, 3);
            log.push("update");
            Reply::Updated(node_pool(&id, settings))
        }
        Request::ListPodsWithLabels { .. } | Request::ListPodsWithFields { .. } => {
            Reply::Pods(vec![])
        }
        Request::DestroyPoolById { .. } => {
            log.push("destroy");
            Reply::Destroyed(false)
        }
        Request::PatchPoolStatus { .. } => {
            log.push("status");
            Reply::Patched
        }
        other => panic!("unexpected request {:?}", other),
    });
    assert_eq!(log, vec!["update", "destroy", "status"]);
    assert_requeue(outcome, 3600);
}

#[test]
fn pass_asks_for_little_more_than_one_thing_for_each_pod() {
    let pods = 20;
    let waiting = pool(
        Some("pool1_uid"),
        "pool1_namespace",
        default_settings(),
        None,
        creating(),
    );
    let mut requests = 0;
    let outcome = drive(operator().reconcile(waiting), |request| {
        requests += 1;
        match request {
            Request::FindPoolByName { .. } => Reply::Found(None),
            Request::ListPodsWithLabels { .. } => Reply::Pods(vec![]),
            Request::ListPodsWithFields { .. } => Reply::Pods(
                (0..pods)
                    .map(|i| selecting_pod(&format!("pod{}", i), "pool1.pool1_namespace"))
                    .collect(),
            ),
            Request::PatchPod { .. } | Request::PatchPoolStatus { .. } => Reply::Patched,
            Request::CreatePool { settings } => Reply::Created(node_pool("new", settings)),
            other => panic!("unexpected request {:?}", other),
        }
    });
    assert_eq!(requests, 7 + pods);
    assert_requeue(outcome, 3600);
}

#[test]
fn longest_readable_timeout_can_be_scheduled() {
    let timeout = parse_idle_timeout(Some("18446744073709551615ns")).unwrap();
    assert_eq!(timeout, Some(Duration::new(18_446_744_073, 709_551_615)));
    let (outcome, log) = drive_idle(
        idle_pool(None, timeout),
        vec![Timestamp::new(1_700_000_000, 500_000_000)],
    );
    assert_eq!(log, vec!["Some(\"node_pool_id\") Some((20146744074, 209551615))"]);
    assert_eq!(outcome.unwrap(), Action::Requeue(timeout.unwrap()));
}

#[test]
fn finished_pod_does_not_keep_its_pool_up() {
    let settings = NodePoolSettings {
        name: "np".to_string(),
        size: "vm".to_string(),
        ..default_settings()
    };
    for phase in vec!["Succeeded", "Failed"] {
        let own = pool(
            Some("u"),
            "ns1",
            settings.clone(),
            None,
            Some(ManagedNodePoolStatus {
                node_pool_id: text("np1"),
                node_pool_status: Some(NodePoolStatus::CREATED),
                destroy_after: None,
            }),
        );
        let mut log: Vec<String> = Vec::new();
        let outcome = drive(operator().reconcile(own), |request| match request {
            Request::FindPoolById { id } => {
                assert_eq!(id, "np1");
                Reply::Found(Some(node_pool("np1", settings.clone())))
            }
            Request::ListPodsWithLabels { .. } => {
                Reply::Pods(vec![in_phase(phase, labeled_pod("pool1.ns1"))])
            }
            Request::ListPodsWithFields { .. } => Reply::Pods(vec![]),
            Request::DestroyPoolById { id } => {
                log.push(format!("destroy {}", id));
                Reply::Destroyed(true)
            }
            Request::PatchPoolStatus { status, .. } => {
                assert!(status.node_pool_id.is_none());
                assert!(status.node_pool_status.is_none());
                assert!(status.destroy_after.is_none());
                log.push("blank".to_string());
                Reply::Patched
            }
            other => panic!("unexpected request {:?}", other),
        });
        assert_eq!(log, vec!["destroy np1", "blank"]);
        assert_requeue(outcome, 3600);
    }
}

#[test]
fn running_pod_keeps_its_pool_up() {
    let own = pool(
        None,
        "ns1",
        default_settings(),
        None,
        recorded("node_pool_id"),
    );
    let outcome = drive(operator().reconcile(own), |request| match request {
        Request::FindPoolById { .. } => {
            Reply::Found(Some(node_pool("node_pool_id", default_settings())))
        }
        Request::ListPodsWithLabels { .. } => {
            Reply::Pods(vec![in_phase("Running", labeled_pod("pool1.ns1"))])
        }
        Request::ListPodsWithFields { .. } => Reply::Pods(vec![]),
        other => panic!("unexpected request {:?}", other),
    });
    assert_requeue(outcome, 3600);
}

#[test]
fn pods_of_another_pool_bring_nothing_up() {
    let own = pool(Some("u"), "ns1", default_settings(), None, None);
    let outcome = drive(operator().reconcile(own), |request| match request {
        Request::ListPodsWithLabels { .. } => {
            Reply::Pods(vec![in_phase("Running", labeled_pod("pool2.ns2"))])
        }
        Request::ListPodsWithFields { .. } => {
            Reply::Pods(vec![in_phase("Pending", selecting_pod("a", "pool2.ns2"))])
        }
        other => panic!("unexpected request {:?}", other),
    });
    assert_requeue(outcome, 3600);
}

#[test]
fn recorded_end_outlives_a_pass_with_pods() {
    let end = Some(Timestamp::new(1_700_000_010, 0));
    let timeout = Some(Duration::from_secs(10));
    let outcome = drive(
        operator().reconcile(idle_pool(end, timeout)),
        |request| match request {
            Request::FindPoolById { .. } => {
                Reply::Found(Some(node_pool("node_pool_id", default_settings())))
            }
            Request::ListPodsWithLabels { .. } => {
                Reply::Pods(vec![labeled_pod("pool1.pool1_namespace")])
            }
            Request::ListPodsWithFields { .. } => Reply::Pods(vec![]),
            other => panic!("unexpected request {:?}", other),
        },
    );
    assert_requeue(outcome, 3600);

    let (outcome, log) = drive_idle(
        idle_pool(end, timeout),
        vec![Timestamp::new(1_800_000_000, 0)],
    );
    assert_eq!(log, vec!["destroy", "None None"]);
    assert_requeue(outcome, 3600);
}

#[test]
fn pool_without_a_namespace_gets_no_pass() {
    for event in vec![Event::Apply, Event::Cleanup] {
        let mut unplaced = (*pool(
            Some("u"),
            "ns1",
            default_settings(),
            None,
            recorded("node_pool_id"),
        ))
        .clone();
        unplaced.metadata.namespace = None;
        let outcome = drive(
            operator().reconcile_or_cleanup(event, Arc::new(unplaced)),
            |request| panic!("unexpected request {:?}", request),
        );
        assert!(matches!(
            outcome,
            Err(OperatorError::Metadata(MetadataError::MissingPoolNamespace))
        ));
    }
}

#[test]
fn pool_with_a_dot_in_its_name_comes_up_for_its_labeled_pods() {
    let mut dotted = (*pool(Some("u"), "c", default_settings(), None, None)).clone();
    dotted.metadata.name = text("a.b");
    let mut created = 0;
    let outcome = drive(
        operator().reconcile(Arc::new(dotted)),
        |request| match request {
            Request::ListPodsWithLabels { .. } => {
                Reply::Pods(vec![in_phase("Running", labeled_pod("a.b.c"))])
            }
            Request::ListPodsWithFields { .. } => Reply::Pods(vec![]),
            Request::PatchPoolStatus { .. } => Reply::Patched,
            Request::CreatePool { settings } => {
                created += 1;
                Reply::Created(node_pool("new", settings))
            }
            other => panic!("unexpected request {:?}", other),
        },
    );
    assert_eq!(created, 1);
    assert_requeue(outcome, 3600);
}
