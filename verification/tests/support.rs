use udp_relay::registry::UdpRegistry;

#[test]
fn test_concurrent_map() {
    let mut c = UdpRegistry::new();
    c.record(&"sss".to_string(), 3);
    for (k, _v) in c.snapshot().iter() {
        println!("{}", k)
    }
}

#[test]
fn record_then_snapshot_holds_the_entry() {
    let mut c = UdpRegistry::new();
    c.record(&"10.0.0.1:5000".to_string(), 42);
    c.record(&"10.0.0.2:5000".to_string(), 7);
    c.record(&"10.0.0.1:5000".to_string(), 50);
    let mut es = c.snapshot();
    es.sort();
    assert_eq!(
        es,
        vec![("10.0.0.1:5000".to_string(), 50), ("10.0.0.2:5000".to_string(), 7)]
    );
    assert!(c.is_running(&"10.0.0.1:5000".to_string()));
    assert!(!c.is_running(&"10.0.0.3:5000".to_string()));
}

#[test]
fn touch_records_current_time() {
    let mut c = UdpRegistry::new();
    let at = c.touch(&"a".to_string());
    assert_eq!(c.snapshot(), vec![("a".to_string(), at)]);
    assert!(at > 1_500_000_000_000);
}

#[test]
fn expiry_removes_only_old_relays() {
    let mut c = UdpRegistry::new();
    c.record(&"old".to_string(), 1_000);
    c.record(&"edge".to_string(), 10_000);
    c.record(&"fresh".to_string(), 25_000);
    let mut gone = c.expire_at(30_000);
    gone.sort();
    assert_eq!(gone, vec!["old".to_string()]);
    let mut es = c.snapshot();
    es.sort();
    assert_eq!(es, vec![("edge".to_string(), 10_000), ("fresh".to_string(), 25_000)]);
    // a second expiry at the same time removes nothing
    assert!(c.expire_at(30_000).is_empty());
    // one millisecond later the edge entry is past the period
    assert_eq!(c.expire_at(30_001), vec!["edge".to_string()]);
}

#[test]
fn expiry_without_overflow_at_extremes() {
    let mut c = UdpRegistry::new();
    c.record(&"min".to_string(), i64::MIN);
    c.record(&"max".to_string(), i64::MAX);
    let gone = c.expire_at(i64::MAX);
    assert_eq!(gone, vec!["min".to_string()]);
    assert!(c.is_running(&"max".to_string()));
}

#[test]
fn expire_now_keeps_just_touched_relay() {
    let mut c = UdpRegistry::new();
    c.touch(&"live".to_string());
    c.record(&"dead".to_string(), 0);
    let (gone, now) = c.expire();
    assert_eq!(gone, vec!["dead".to_string()]);
    assert!(now > 20_000);
    assert!(c.is_running(&"live".to_string()));
}
