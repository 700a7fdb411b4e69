use udp_relay::http_server::{
    bind_reply, monitor_reply, BindRequest, not_found_reply, ping_reply, route, should_start_udp_server, HttpConfig,
    HttpMethod, Route,
};
use udp_relay::registry::UdpRegistry;

#[test]
fn routes_known_paths() {
    assert!(matches!(route(HttpMethod::Post, "/udp/bindUdp"), Route::BindUdp));
    assert!(matches!(route(HttpMethod::Get, "/udp/monitor"), Route::Monitor));
    assert!(matches!(route(HttpMethod::Get, "/udp/pingUdp"), Route::PingUdp));
}

#[test]
fn wrong_method_or_path_is_not_found() {
    assert!(matches!(route(HttpMethod::Get, "/udp/bindUdp"), Route::NotFound));
    assert!(matches!(route(HttpMethod::Post, "/udp/monitor"), Route::NotFound));
    assert!(matches!(route(HttpMethod::Other, "/udp/pingUdp"), Route::NotFound));
    assert!(matches!(route(HttpMethod::Get, "/udp/pingudp"), Route::NotFound));
    assert!(matches!(route(HttpMethod::Get, "/udp/pingUdp/"), Route::NotFound));
    assert!(matches!(route(HttpMethod::Get, ""), Route::NotFound));
}

#[test]
fn replies() {
    let r = not_found_reply();
    assert_eq!((r.status, r.code, r.message.as_str()), (404, 0, "接口无法找到!"));
    let r = ping_reply();
    assert_eq!((r.status, r.code, r.message.as_str()), (200, 0, ""));
    let r = bind_reply();
    assert_eq!((r.status, r.code, r.message.as_str()), (200, 0, ""));
}

#[test]
fn monitor_lists_registry() {
    let mut reg = UdpRegistry::new();
    reg.record(&"1.2.3.4:7000".to_string(), 11);
    let r = monitor_reply(&reg);
    assert_eq!((r.status, r.code, r.message.as_str()), (200, 200, ""));
    assert_eq!(r.relays, vec![("1.2.3.4:7000".to_string(), 11)]);
}

#[test]
fn bind_starts_only_unregistered_relay() {
    let mut reg = UdpRegistry::new();
    let addr = "1.2.3.4:7000".to_string();
    assert!(should_start_udp_server(&reg, &addr));
    reg.record(&addr, 5);
    assert!(!should_start_udp_server(&reg, &addr));
    assert!(should_start_udp_server(&reg, &"1.2.3.4:7001".to_string()));
}

#[test]
fn http_config_keeps_address() {
    let c = HttpConfig::new("0.0.0.0:38100".to_string());
    assert_eq!(c.addr(), "0.0.0.0:38100");
}

#[test]
fn bind_request_keeps_addresses_and_decides_start() {
    let req = BindRequest::new(
        "0.0.0.0:0000".to_string(),
        "10.0.0.5:6000".to_string(),
        "10.0.0.9:7000".to_string(),
    );
    assert_eq!(req.leftAddr, "0.0.0.0:0000");
    assert_eq!(req.selfAddr, "10.0.0.5:6000");
    assert_eq!(req.rightAddr, "10.0.0.9:7000");
    let mut reg = UdpRegistry::new();
    assert!(should_start_udp_server(&reg, &req.selfAddr));
    reg.record(&req.selfAddr, 1);
    assert!(!should_start_udp_server(&reg, &req.selfAddr));
}

#[test]
fn expire_names_each_relay_once() {
    let mut reg = UdpRegistry::new();
    reg.record(&"a".to_string(), 0);
    reg.record(&"a".to_string(), 1);
    reg.record(&"b".to_string(), 2);
    let (mut gone, _) = reg.expire();
    gone.sort();
    assert_eq!(gone, vec!["a".to_string(), "b".to_string()]);
}
