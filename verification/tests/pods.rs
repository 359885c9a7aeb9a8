use managed_node_pool::labels::Labels;
use managed_node_pool::model::{
    ManagedNodePool, ManagedNodePoolSpec, NodePoolSettings, NodePoolTaint, ObjectMeta, ObjectRef,
    Pod, PodSpec, Toleration,
};
use managed_node_pool::pods::{
    find_pool_ref, has_pool_label, list_pods, matches_pool_ref, patch_pod, pod_location,
};
use managed_node_pool::pool::{
    get_pool_full_name, get_pool_taint, needs_update, patch_pool_settings, pool_location,
    MetadataError, API_VERSION, KIND, LABEL_MANAGED_NODE_POOL,
};

fn settings() -> NodePoolSettings {
    NodePoolSettings {
        name: "managed-pool-test-1".to_string(),
        size: "s-1vcpu-1gb".to_string(),
        count: 4,
        min_count: Some(1),
        max_count: Some(10),
        tags: Some(vec!["tag1".to_string(), "tag2".to_string()]),
        labels: None,
        taints: None,
    }
}

fn pool(name: Option<&str>, namespace: Option<&str>, uid: Option<&str>) -> ManagedNodePool {
    ManagedNodePool {
        metadata: ObjectMeta {
            name: name.map(|s| s.to_string()),
            namespace: namespace.map(|s| s.to_string()),
            uid: uid.map(|s| s.to_string()),
            labels: None,
        },
        spec: ManagedNodePoolSpec {
            settings: settings(),
            idle_timeout: None,
        },
        status: None,
    }
}

fn labels(full_name: &str) -> Labels {
    let mut labels = Labels::new();
    labels.insert(LABEL_MANAGED_NODE_POOL.to_string(), full_name.to_string());
    labels
}

fn selecting(full_name: &str) -> Pod {
    Pod {
        metadata: ObjectMeta {
            name: Some("test".to_string()),
            namespace: Some("default".to_string()),
            ..Default::default()
        },
        spec: Some(PodSpec {
            node_selector: Some(labels(full_name)),
            tolerations: None,
        }),
        phase: None,
    }
}

fn in_phase(phase: &str, pod: Pod) -> Pod {
    Pod {
        phase: Some(phase.to_string()),
        ..pod
    }
}

fn reference(name: &str, namespace: &str) -> ObjectRef {
    ObjectRef {
        name: name.to_string(),
        namespace: Some(namespace.to_string()),
    }
}

#[test]
fn node_selector_points_to_its_pool() {
    let pool = pool(Some("managed-pool-1"), Some("test"), Some("uid"));
    assert_eq!(get_pool_full_name(&pool).unwrap(), "managed-pool-1.test");
    let found = find_pool_ref(&selecting("managed-pool-1.test")).unwrap();
    assert_eq!(found, reference("managed-pool-1", "test"));
    assert!(matches_pool_ref(&pool, &found));
    let listed = list_pods(vec![], vec![selecting("managed-pool-1.test")], &pool);
    assert_eq!(listed.len(), 1);
}

#[test]
fn label_goes_before_node_selector() {
    let mut pod = selecting("a.b");
    pod.metadata.labels = Some(labels("c.d"));
    assert!(has_pool_label(&pod));
    assert_eq!(find_pool_ref(&pod), Some(reference("c", "d")));
    pod.metadata.labels = Some(Labels::new());
    assert!(!has_pool_label(&pod));
    assert_eq!(find_pool_ref(&pod), Some(reference("a", "b")));
    pod.spec = None;
    assert_eq!(find_pool_ref(&pod), None);
    pod.spec = Some(PodSpec::default());
    assert_eq!(find_pool_ref(&pod), None);
    assert_eq!(find_pool_ref(&Pod::default()), None);
}

#[test]
fn full_name_is_cut_at_the_first_dot() {
    assert_eq!(find_pool_ref(&selecting("a.b.c")), Some(reference("a", "b.c")));
    assert_eq!(find_pool_ref(&selecting(".c")), Some(reference("", "c")));
    assert_eq!(find_pool_ref(&selecting("a.")), Some(reference("a", "")));
    assert_eq!(find_pool_ref(&selecting("pröl.ñs")), Some(reference("pröl", "ñs")));
    assert_eq!(find_pool_ref(&selecting("nodot")), None);
    assert_eq!(find_pool_ref(&selecting("")), None);
    // A label without a dot hides the node selector.
    let mut pod = selecting("a.b");
    pod.metadata.labels = Some(labels("nodot"));
    assert_eq!(find_pool_ref(&pod), None);
}

#[test]
fn name_with_a_dot_does_not_lead_back() {
    let dotted = pool(Some("a.b"), Some("c"), None);
    let full_name = get_pool_full_name(&dotted).unwrap();
    let found = find_pool_ref(&selecting(&full_name)).unwrap();
    assert!(!matches_pool_ref(&dotted, &found));
}

#[test]
fn references_match_by_name_and_namespace() {
    let own = pool(Some("a"), Some("b"), None);
    assert!(matches_pool_ref(&own, &reference("a", "b")));
    assert!(!matches_pool_ref(&own, &reference("a", "c")));
    assert!(!matches_pool_ref(&own, &reference("x", "b")));
    let bare = ObjectRef {
        name: "a".to_string(),
        namespace: None,
    };
    assert!(!matches_pool_ref(&own, &bare));
    assert!(matches_pool_ref(&pool(Some("a"), None, None), &bare));
    assert!(!matches_pool_ref(&pool(None, Some("b"), None), &reference("a", "b")));
}

#[test]
fn labeled_pods_are_listed_first() {
    let own = pool(Some("a"), Some("b"), None);
    let listed = list_pods(
        vec![
            selecting("x.y"),
            in_phase("Running", selecting("a.b")),
            in_phase("Succeeded", selecting("a.b")),
        ],
        vec![
            in_phase("Pending", selecting("a.b")),
            selecting("x.y"),
            Pod::default(),
            selecting("a.b"),
        ],
        &own,
    );
    let phases: Vec<Option<&str>> = listed.iter().map(|pod| pod.phase.as_deref()).collect();
    assert_eq!(phases, vec![Some("Running"), Some("Pending"), None]);
    for pod in &listed {
        assert_eq!(find_pool_ref(pod), Some(reference("a", "b")));
    }
}

#[test]
fn marked_pod_fits_its_pool() {
    let own = pool(Some("a"), Some("b"), Some("uid-1"));
    let patch = patch_pod(&selecting("a.b"), &own).unwrap();
    assert_eq!(patch.metadata.name.as_deref(), Some("test"));
    assert_eq!(patch.metadata.namespace.as_deref(), Some("default"));
    assert!(patch.metadata.uid.is_none());
    assert_eq!(patch.metadata.labels, Some(labels("a.b")));
    assert_eq!(find_pool_ref(&patch), Some(reference("a", "b")));
    let pod_spec = patch.spec.unwrap();
    assert!(pod_spec.node_selector.is_none());
    assert_eq!(
        pod_spec.tolerations,
        Some(vec![Toleration {
            effect: Some("NoSchedule".to_string()),
            key: Some("dgolubets.github.io/managed-node-pool".to_string()),
            operator: Some("Equal".to_string()),
            value: Some("uid-1".to_string()),
        }])
    );
    let patched = patch_pool_settings(settings(), &own).unwrap();
    assert_eq!(
        patched.taints,
        Some(vec![NodePoolTaint {
            key: "dgolubets.github.io/managed-node-pool".to_string(),
            value: "uid-1".to_string(),
            effect: "NoSchedule".to_string(),
        }])
    );
    assert_eq!(patched.labels, Some(labels("a.b")));
}

#[test]
fn marked_settings_keep_the_rest() {
    let own = pool(Some("a"), Some("b"), Some("uid-1"));
    let mut asked = settings();
    let mut own_labels = labels("stale");
    own_labels.insert("label1".to_string(), "value1".to_string());
    asked.labels = Some(own_labels);
    let patched = patch_pool_settings(asked.clone(), &own).unwrap();
    let mut expected = asked.clone();
    let mut expected_labels = labels("a.b");
    expected_labels.insert("label1".to_string(), "value1".to_string());
    expected.labels = Some(expected_labels);
    expected.taints = patched.taints.clone();
    assert_eq!(patched, expected);
    assert!(!needs_update(&asked, &patched));
}

#[test]
fn only_sizes_need_an_update() {
    let asked = settings();
    let mut current = settings();
    current.name = "other".to_string();
    current.size = "other".to_string();
    current.tags = None;
    assert!(!needs_update(&asked, &current));
    current.count = 5;
    assert!(needs_update(&asked, &current));
    current.count = 4;
    current.min_count = None;
    assert!(needs_update(&asked, &current));
    current.min_count = Some(1);
    current.max_count = Some(11);
    assert!(needs_update(&asked, &current));
}

#[test]
fn missing_metadata_is_named_in_order() {
    let nothing = pool(None, None, None);
    assert_eq!(get_pool_full_name(&nothing), Err(MetadataError::MissingPoolName));
    assert_eq!(get_pool_taint(&nothing), Err(MetadataError::MissingPoolUid));
    assert_eq!(
        patch_pool_settings(settings(), &nothing),
        Err(MetadataError::MissingPoolUid)
    );
    assert!(matches!(
        patch_pod(&Pod::default(), &nothing),
        Err(MetadataError::MissingPoolName)
    ));
    let named = pool(Some("a"), None, Some("u"));
    assert_eq!(
        get_pool_full_name(&named),
        Err(MetadataError::MissingPoolNamespace)
    );
    assert_eq!(
        patch_pool_settings(settings(), &named),
        Err(MetadataError::MissingPoolNamespace)
    );
    assert_eq!(get_pool_taint(&named), Ok("u"));
    let no_uid = pool(Some("a"), Some("b"), None);
    assert!(matches!(
        patch_pod(&Pod::default(), &no_uid),
        Err(MetadataError::MissingPoolUid)
    ));
}

#[test]
fn locations_of_patches() {
    assert_eq!(
        pool_location(&pool(Some("a"), Some("b"), None)),
        Ok(("b".to_string(), "a".to_string()))
    );
    assert_eq!(
        pool_location(&pool(None, None, None)),
        Err(MetadataError::MissingPoolName)
    );
    assert_eq!(
        pool_location(&pool(Some("a"), None, None)),
        Err(MetadataError::MissingPoolNamespace)
    );
    assert_eq!(
        pod_location(&selecting("a.b")),
        Ok(("default".to_string(), "test".to_string()))
    );
    assert_eq!(
        pod_location(&Pod::default()),
        Err(MetadataError::MissingPodName)
    );
    let mut pod = selecting("a.b");
    pod.metadata.namespace = None;
    assert_eq!(pod_location(&pod), Err(MetadataError::MissingPodNamespace));
    assert_eq!(API_VERSION, "dgolubets.github.io/v1alpha1");
    assert_eq!(KIND, "ManagedNodePool");
}

#[test]
fn messages_name_what_is_missing() {
    let messages: Vec<&str> = vec![
        MetadataError::MissingPoolName,
        MetadataError::MissingPoolNamespace,
        MetadataError::MissingPoolUid,
        MetadataError::MissingPodName,
        MetadataError::MissingPodNamespace,
    ]
    .iter()
    .map(|e| e.message())
    .collect();
    assert_eq!(
        messages,
        vec![
            "Missing pool name",
            "Missing pool namespace",
            "Missing pool UID",
            "Missing pod name",
            "Missing pod namespace"
        ]
    );
}

#[test]
fn demand_comes_from_pods_that_ask_and_have_not_finished() {
    let own = pool(Some("a"), Some("b"), None);
    assert_eq!(list_pods(vec![], vec![], &own).len(), 0);
    assert_eq!(list_pods(vec![], vec![selecting("x.y")], &own).len(), 0);
    assert_eq!(list_pods(vec![], vec![selecting("a.b")], &own).len(), 1);
    assert_eq!(list_pods(vec![selecting("a.b")], vec![], &own).len(), 1);
    assert_eq!(list_pods(vec![selecting("x.y")], vec![], &own).len(), 0);
    for (phase, listed) in vec![
        ("Pending", 1),
        ("Running", 1),
        ("Unknown", 1),
        ("Succeeded", 0),
        ("Failed", 0),
    ] {
        let labeled = vec![in_phase(phase, selecting("a.b"))];
        assert_eq!(list_pods(labeled, vec![], &own).len(), listed);
    }
}

#[test]
fn marking_does_not_reassign_a_pod() {
    let own = pool(Some("a"), Some("b.c"), Some("u"));
    let pod = in_phase("Pending", selecting("a.b.c"));
    let patch = patch_pod(&pod, &own).unwrap();
    assert!(patch.phase.is_none());
    assert_eq!(find_pool_ref(&patch), find_pool_ref(&pod));
    assert_eq!(list_pods(vec![patch], vec![], &own).len(), 1);
}

#[test]
fn full_names_differ_with_name_or_namespace() {
    let names: Vec<String> = vec![("a", "b"), ("a", "c"), ("b", "b"), ("a", "b.c")]
        .into_iter()
        .map(|(name, namespace)| {
            get_pool_full_name(&pool(Some(name), Some(namespace), None)).unwrap()
        })
        .collect();
    assert_eq!(names, vec!["a.b", "a.c", "b.b", "a.b.c"]);
}

#[test]
fn labeled_pod_that_bears_the_full_name_counts_though_the_name_holds_a_dot() {
    let dotted = pool(Some("a.b"), Some("c"), Some("u"));
    let full_name = get_pool_full_name(&dotted).unwrap();
    assert_eq!(full_name, "a.b.c");
    let bearing = || {
        let mut pod = Pod::default();
        pod.metadata.labels = Some(labels("a.b.c"));
        pod
    };
    assert!(!matches_pool_ref(&dotted, &find_pool_ref(&bearing()).unwrap()));
    assert_eq!(list_pods(vec![bearing()], vec![], &dotted).len(), 1);
    assert_eq!(list_pods(vec![selecting("a.b.c")], vec![], &dotted).len(), 1);
    assert_eq!(
        list_pods(vec![in_phase("Succeeded", bearing())], vec![], &dotted).len(),
        0
    );
    // Pending pods are matched by reference only.
    assert_eq!(list_pods(vec![], vec![selecting("a.b.c")], &dotted).len(), 0);
    let other = pool(Some("a.b"), Some("d"), Some("u"));
    assert_eq!(list_pods(vec![bearing()], vec![], &other).len(), 0);
    let nameless = pool(None, Some("c"), Some("u"));
    assert_eq!(list_pods(vec![bearing()], vec![], &nameless).len(), 0);
    // A pod that was marked for the pool keeps it up.
    let patch = patch_pod(&selecting("a.b.c"), &dotted).unwrap();
    assert_eq!(list_pods(vec![patch], vec![], &dotted).len(), 1);
}
