use managed_node_pool::digital_ocean;
use managed_node_pool::digital_ocean::{
    carries_pool, destroyed, found_pool, from_do_pool, from_do_pool_settings, from_do_pools,
    to_do_settings, DigitalOcean, DigitalOceanSettings, DoNodePool,
    DoNodePoolSettings, HttpRequest, Method,
};
use managed_node_pool::labels::Labels;
use managed_node_pool::model::{NodePoolSettings, NodePoolTaint};
use managed_node_pool::pool::needs_update;

const TEST_POOL_NAME: &str = "test-pool-123";

fn provider() -> DigitalOcean {
    DigitalOcean::new(DigitalOceanSettings {
        token: "a-token".to_string(),
        cluster_id: "a-cluster".to_string(),
    })
}

fn test_settings() -> NodePoolSettings {
    NodePoolSettings {
        name: TEST_POOL_NAME.to_string(),
        size: "s-1vcpu-2gb".to_string(),
        count: 2,
        taints: Some(vec![NodePoolTaint {
            key: "dedicated".to_string(),
            value: "test-123".to_string(),
            effect: "NoSchedule".to_string(),
        }]),
        min_count: None,
        max_count: None,
        tags: None,
        labels: None,
    }
}

/// The reply to a request that creates or updates a pool.
fn reply(request: HttpRequest) -> DoNodePool {
    DoNodePool {
        id: "pool-id".to_string(),
        settings: request.body.unwrap(),
    }
}

#[test]
fn create_pool() {
    let request = provider().create_pool(&test_settings());
    assert_eq!(request.method, Method::Post);
    assert_eq!(
        request.url,
        "https://api.digitalocean.com/v2/kubernetes/clusters/a-cluster/node_pools"
    );
    assert_eq!(request.bearer_token, "a-token");
    let pool = from_do_pool(reply(request));
    assert!(!pool.id.is_empty());
    assert_eq!(pool.settings.name, TEST_POOL_NAME);
    assert_eq!(pool.settings, test_settings());
}

#[test]
fn find_pool_by_name() {
    let request = provider().list_pools();
    assert_eq!(request.method, Method::Get);
    assert_eq!(
        request.url,
        "https://api.digitalocean.com/v2/kubernetes/clusters/a-cluster/node_pools"
    );
    assert_eq!(request.bearer_token, "a-token");
    assert!(request.body.is_none());
    let pools = from_do_pools(vec![reply(provider().create_pool(&test_settings()))]);
    let pool = digital_ocean::find_pool_by_name(pools, TEST_POOL_NAME);
    assert!(pool.is_some());
}

#[test]
fn update_pool() {
    let mut pool = from_do_pool(reply(provider().create_pool(&test_settings())));
    pool.settings.min_count = Some(1);
    pool.settings.max_count = Some(2);
    let request = provider().update_pool_by_id(&pool.id, &pool.settings);
    assert_eq!(request.method, Method::Put);
    assert_eq!(
        request.url,
        "https://api.digitalocean.com/v2/kubernetes/clusters/a-cluster/node_pools/pool-id"
    );
    assert_eq!(request.bearer_token, "a-token");
    let pool = from_do_pool(reply(request));
    assert_eq!(pool.settings.min_count, Some(1));
    assert_eq!(pool.settings.max_count, Some(2));
}

#[test]
fn destroy_pool() {
    let request = provider().destroy_pool_by_id("pool-id");
    assert_eq!(request.method, Method::Delete);
    assert_eq!(
        request.url,
        "https://api.digitalocean.com/v2/kubernetes/clusters/a-cluster/node_pools/pool-id"
    );
    assert_eq!(request.bearer_token, "a-token");
    assert!(request.body.is_none());
    let res = destroyed(204).unwrap();
    assert!(res);
}

#[test]
fn replies_to_destroying_a_pool() {
    assert_eq!(destroyed(404), Ok(false));
    assert_eq!(destroyed(200), Ok(true));
    assert_eq!(destroyed(399), Ok(true));
    assert_eq!(destroyed(400), Err(400));
    assert_eq!(destroyed(401), Err(401));
    assert_eq!(destroyed(500), Err(500));
    assert_eq!(destroyed(599), Err(599));
    assert_eq!(destroyed(600), Ok(true));
}

#[test]
fn lookup_of_a_pool() {
    let request = provider().find_pool_by_id("x");
    assert_eq!(request.method, Method::Get);
    assert_eq!(
        request.url,
        "https://api.digitalocean.com/v2/kubernetes/clusters/a-cluster/node_pools/x"
    );
    assert_eq!(request.bearer_token, "a-token");
    assert!(request.body.is_none());
    assert!(!carries_pool(404));
    assert!(carries_pool(200));
    assert!(carries_pool(500));
    assert!(found_pool(None).is_none());
    let carried = reply(provider().create_pool(&test_settings()));
    assert_eq!(found_pool(Some(carried)).unwrap().id, "pool-id");
}

#[test]
fn bounds_switch_scaling_on() {
    let mut settings = test_settings();
    assert_eq!(to_do_settings(&settings).auto_scale, Some(false));
    settings.min_count = Some(1);
    assert_eq!(to_do_settings(&settings).auto_scale, Some(true));
    settings.min_count = None;
    settings.max_count = Some(3);
    let sent = to_do_settings(&settings);
    assert_eq!(sent.auto_scale, Some(true));
    assert_eq!(sent.min_nodes, None);
    assert_eq!(sent.max_nodes, Some(3));
    assert_eq!(sent.count, 2);
}

fn reported(auto_scale: Option<bool>) -> DoNodePoolSettings {
    DoNodePoolSettings {
        name: "n".to_string(),
        size: "s".to_string(),
        count: 3,
        auto_scale,
        min_nodes: Some(1),
        max_nodes: Some(5),
        tags: Some(vec!["t".to_string()]),
        labels: None,
        taints: None,
    }
}

#[test]
fn bounds_count_only_with_scaling() {
    let scaled = from_do_pool_settings(reported(Some(true)));
    assert_eq!((scaled.min_count, scaled.max_count), (Some(1), Some(5)));
    let fixed = from_do_pool_settings(reported(Some(false)));
    assert_eq!((fixed.min_count, fixed.max_count), (None, None));
    let unsaid = from_do_pool_settings(reported(None));
    assert_eq!((unsaid.min_count, unsaid.max_count), (None, None));
    assert_eq!(unsaid.tags, Some(vec!["t".to_string()]));
    assert_eq!(unsaid.count, 3);
}

#[test]
fn settings_come_back_as_sent() {
    let mut settings = test_settings();
    let mut labels = Labels::new();
    labels.insert("label1".to_string(), "value1".to_string());
    settings.labels = Some(labels);
    settings.tags = Some(vec!["tag1".to_string(), "tag2".to_string()]);
    settings.max_count = Some(0);
    let back = from_do_pool_settings(to_do_settings(&settings));
    assert_eq!(back, settings);
    assert!(!needs_update(&settings, &back));
}

#[test]
fn first_pool_of_a_name_is_picked() {
    let named = |id: &str, name: &str| {
        let mut settings = reported(None);
        settings.name = name.to_string();
        DoNodePool {
            id: id.to_string(),
            settings,
        }
    };
    let list = || {
        from_do_pools(vec![
            named("1", "a"),
            named("2", "b"),
            named("3", "b"),
        ])
    };
    assert_eq!(list().len(), 3);
    assert_eq!(digital_ocean::find_pool_by_name(list(), "b").unwrap().id, "2");
    assert!(digital_ocean::find_pool_by_name(list(), "c").is_none());
    assert!(digital_ocean::find_pool_by_name(vec![], "a").is_none());
}
