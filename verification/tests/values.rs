use managed_node_pool::labels::Labels;
use managed_node_pool::time::{Duration, Timestamp};
use managed_node_pool::timeout::{idle_timeout_from_parsed, parse_idle_timeout};

fn labels(entries: &[(&str, &str)]) -> Labels {
    let mut labels = Labels::new();
    for (key, value) in entries {
        labels.insert(key.to_string(), value.to_string());
    }
    labels
}

#[test]
fn labels_hold_the_last_value_of_a_key() {
    let map = labels(&[("a", "1"), ("b", "2"), ("a", "3")]);
    assert_eq!(map.get("a").map(|v| v.as_str()), Some("3"));
    assert_eq!(map.get("b").map(|v| v.as_str()), Some("2"));
    assert!(map.get("c").is_none());
    assert!(map.contains_key("a"));
    assert!(!map.contains_key(""));
    assert_eq!(map.entries().len(), 2);
}

#[test]
fn labels_are_equal_in_any_order() {
    let map = labels(&[("a", "1"), ("b", "2")]);
    assert_eq!(map, labels(&[("b", "2"), ("a", "1")]));
    assert_eq!(map, map.clone());
    assert_ne!(map, labels(&[("a", "1")]));
    assert_ne!(labels(&[("a", "1")]), map);
    assert_ne!(map, labels(&[("a", "1"), ("b", "3")]));
    assert_eq!(Labels::new(), labels(&[]));
}

#[test]
fn timestamps_are_ordered() {
    let early = Timestamp::new(-1, 999_999_999);
    let late = Timestamp::new(0, 0);
    assert!(early.is_before(&late));
    assert!(!late.is_before(&early));
    assert!(!late.is_before(&late));
    assert_eq!(late.duration_since(&early), Some(Duration::new(0, 1)));
    assert_eq!(early.duration_since(&late), None);
    assert_eq!(late.duration_since(&late), Some(Duration::from_secs(0)));
    let first = Timestamp::new(i64::MIN, 0);
    let last = Timestamp::new(i64::MAX, 999_999_999);
    assert_eq!(
        last.duration_since(&first),
        Some(Duration::new(u64::MAX, 999_999_999))
    );
}

#[test]
fn durations_are_added_with_carry() {
    let t = Timestamp::new(10, 700_000_000);
    assert_eq!(
        t.checked_add(Duration::new(1, 600_000_000)),
        Some(Timestamp::new(12, 300_000_000))
    );
    assert_eq!(
        t.checked_add(Duration::new(1, 299_999_999)),
        Some(Timestamp::new(11, 999_999_999))
    );
    let last = Timestamp::new(i64::MAX, 999_999_999);
    assert_eq!(last.checked_add(Duration::from_secs(0)), Some(last));
    assert_eq!(last.checked_add(Duration::new(0, 1)), None);
    assert_eq!(
        Timestamp::new(i64::MIN, 0).checked_add(Duration::from_secs(u64::MAX)),
        Some(Timestamp::new(i64::MAX, 0))
    );
    assert_eq!(t.checked_add(Duration::from_secs(u64::MAX)), None);
}

#[test]
fn durations_come_apart() {
    let d = Duration::new(3, 5);
    assert_eq!((d.as_secs(), d.subsec_nanos()), (3, 5));
    let t = Timestamp::new(-2, 7);
    assert_eq!((t.secs(), t.subsec_nanos()), (-2, 7));
}

#[test]
fn idle_timeout_is_read_from_text() {
    assert_eq!(
        parse_idle_timeout(Some("15s")),
        Ok(Some(Duration::from_secs(15)))
    );
    assert_eq!(
        parse_idle_timeout(Some("1m+30")),
        Ok(Some(Duration::from_secs(90)))
    );
    assert_eq!(
        parse_idle_timeout(Some("3m 1s 29ms")),
        Ok(Some(Duration::new(181, 29_000_000)))
    );
    assert_eq!(parse_idle_timeout(Some("")), Ok(None));
    assert_eq!(parse_idle_timeout(None), Ok(None));
    assert!(parse_idle_timeout(Some("soon")).is_err());
    assert_eq!(
        parse_idle_timeout(Some("580y*2")),
        Err("overflow error".to_string())
    );
}

#[test]
fn parsed_length_becomes_a_timeout() {
    assert_eq!(
        idle_timeout_from_parsed(Ok((1, 2))),
        Ok(Some(Duration::new(1, 2)))
    );
    assert_eq!(
        idle_timeout_from_parsed(Err("no".to_string())),
        Err("no".to_string())
    );
}
