use udp_relay::net::Endpoint;
use udp_relay::registry::UdpRegistry;
use udp_relay::report::{STATE_RUNNING, STATE_STOPPED};
use udp_relay::udp_server::{AddressError, Server, ServerAction};

fn ep(ip: &str, port: u16) -> Endpoint {
    Endpoint::new(ip.to_string(), port)
}

fn relay(left: &str, left_parsed: Option<Endpoint>) -> Server {
    let self_parsed = Some(ep("10.0.0.5", 6000));
    let right_parsed = Some(ep("10.0.0.9", 7000));
    assert!(Server::setup_error(&left.to_string(), &left_parsed, &self_parsed, &right_parsed).is_none());
    Server::new(
        left.to_string(),
        "10.0.0.5:6000".to_string(),
        "10.0.0.9:7000".to_string(),
        left_parsed,
        self_parsed,
        right_parsed,
    )
}

#[test]
fn placeholder_left_means_no_client() {
    let s = relay("0.0.0.0:0000", None);
    assert!(s.left_address().is_none());
    assert_eq!(s.raw_left_address(), "0.0.0.0:0000");
}

#[test]
fn given_left_is_kept() {
    let s = relay("10.0.0.1:5000", Some(ep("10.0.0.1", 5000)));
    let l = s.left_address().unwrap();
    assert_eq!((l.ip.as_str(), l.port), ("10.0.0.1", 5000));
}

#[test]
fn setup_errors_in_order() {
    let bad = "bad".to_string();
    let placeholder = "0.0.0.0:0000".to_string();
    let right = Some(ep("10.0.0.9", 7000));
    let me = Some(ep("10.0.0.5", 6000));
    assert!(matches!(Server::setup_error(&bad, &None, &None, &None), Some(AddressError::InvalidLeft)));
    assert!(matches!(Server::setup_error(&placeholder, &None, &None, &None), Some(AddressError::InvalidRight)));
    assert!(matches!(Server::setup_error(&placeholder, &None, &None, &right), Some(AddressError::InvalidSelf)));
    assert!(matches!(
        Server::setup_error(&"10.0.0.1:1".to_string(), &Some(ep("10.0.0.1", 1)), &None, &right),
        Some(AddressError::InvalidSelf)
    ));
    assert!(Server::setup_error(&placeholder, &None, &me, &right).is_none());
    // the placeholder needs no reading, even when it has one
    assert!(Server::setup_error(&placeholder, &Some(ep("0.0.0.0", 0)), &me, &right).is_none());
}

#[test]
fn bind_address_uses_own_port() {
    let s = relay("0.0.0.0:0000", None);
    assert_eq!(s.bind_address(), "0.0.0.0:6000");
}

#[test]
fn bound_relay_registers_and_reports_running() {
    let s = relay("0.0.0.0:0000", None);
    let mut reg = UdpRegistry::new();
    let p = s.on_bound(&mut reg);
    assert!(reg.is_running(&"10.0.0.5:6000".to_string()));
    assert_eq!(p.addr, "10.0.0.5:6000");
    assert_eq!(p.state, STATE_RUNNING);
    assert_eq!(p.state, 2);
    assert_eq!(p.ip, "10.0.0.5");
    assert_eq!(p.data.leftAddr, "0.0.0.0:0000");
    assert_eq!(p.data.selfAddr, "10.0.0.5:6000");
    assert_eq!(p.data.rightAddr, "10.0.0.9:7000");
}

fn buf_with(bytes: &[u8]) -> Vec<u8> {
    let mut b = vec![0u8; 1024];
    b[..bytes.len()].copy_from_slice(bytes);
    b
}

#[test]
fn server_traffic_before_any_client_is_dropped() {
    let mut s = relay("0.0.0.0:0000", None);
    let mut reg = UdpRegistry::new();
    let b = buf_with(b"hello");
    assert!(matches!(s.on_datagram(&mut reg, &b, 5, ep("10.0.0.9", 7000)), ServerAction::NoLeft));
    assert!(reg.is_running(&"10.0.0.5:6000".to_string()));
}

#[test]
fn client_traffic_goes_right_and_client_becomes_left() {
    let mut s = relay("0.0.0.0:0000", None);
    let mut reg = UdpRegistry::new();
    let b = buf_with(b"hello");
    match s.on_datagram(&mut reg, &b, 5, ep("192.168.1.20", 40000)) {
        ServerAction::Forward(e) => assert_eq!((e.ip.as_str(), e.port), ("10.0.0.9", 7000)),
        _ => panic!("should forward to the right side"),
    }
    assert_eq!(s.raw_left_address(), "192.168.1.20:40000");
    match s.on_datagram(&mut reg, &b, 5, ep("10.0.0.9", 7000)) {
        ServerAction::Forward(e) => assert_eq!((e.ip.as_str(), e.port), ("192.168.1.20", 40000)),
        _ => panic!("should forward to the client"),
    }
    // a second client takes over the left side
    s.on_datagram(&mut reg, &b, 5, ep("192.168.1.21", 9));
    assert_eq!(s.raw_left_address(), "192.168.1.21:9");
    match s.on_datagram(&mut reg, &b, 5, ep("10.0.0.9", 7000)) {
        ServerAction::Forward(e) => assert_eq!((e.ip.as_str(), e.port), ("192.168.1.21", 9)),
        _ => panic!("should forward to the newer client"),
    }
}

#[test]
fn same_ip_other_port_is_a_client() {
    let mut s = relay("0.0.0.0:0000", None);
    let mut reg = UdpRegistry::new();
    let b = buf_with(b"x");
    assert!(matches!(s.on_datagram(&mut reg, &b, 1, ep("10.0.0.9", 7001)), ServerAction::Forward(_)));
    assert_eq!(s.raw_left_address(), "10.0.0.9:7001");
}

#[test]
fn empty_datagram_is_ignored() {
    let mut s = relay("0.0.0.0:0000", None);
    let mut reg = UdpRegistry::new();
    let b = buf_with(b"");
    assert!(matches!(s.on_datagram(&mut reg, &b, 0, ep("1.1.1.1", 1)), ServerAction::Ignore));
    assert!(!reg.is_running(&"10.0.0.5:6000".to_string()));
    assert!(s.left_address().is_none());
}

#[test]
fn quit_stops_with_stopped_report() {
    let mut s = relay("10.0.0.1:5000", Some(ep("10.0.0.1", 5000)));
    let mut reg = UdpRegistry::new();
    let b = buf_with(b"quit");
    match s.on_datagram(&mut reg, &b, 4, ep("127.0.0.1", 49999)) {
        ServerAction::Stop(p) => {
            assert_eq!(p.state, STATE_STOPPED);
            assert_eq!(p.state, 0);
            assert_eq!(p.addr, "10.0.0.5:6000");
            assert_eq!(p.data.leftAddr, "10.0.0.1:5000");
        }
        _ => panic!("quit should stop the relay"),
    }
    assert!(!reg.is_running(&"10.0.0.5:6000".to_string()));
    assert_eq!(s.raw_left_address(), "10.0.0.1:5000");
}

#[test]
fn quit_detection() {
    let b = buf_with(b"quit");
    assert!(Server::is_quit_packet(&b, 4));
    // only exactly the four bytes `quit` stop a relay
    assert!(!Server::is_quit_packet(&b, 260));
    assert!(!Server::is_quit_packet(&b, 516));
    assert!(!Server::is_quit_packet(&b, 5));
    assert!(!Server::is_quit_packet(&buf_with(b"Quit"), 4));
    assert!(!Server::is_quit_packet(&buf_with(b"qui"), 3));
}

#[test]
fn long_datagram_starting_with_quit_is_forwarded() {
    let mut s = relay("0.0.0.0:0000", None);
    let mut reg = UdpRegistry::new();
    let b = buf_with(b"quit and more");
    match s.on_datagram(&mut reg, &b, 260, ep("192.168.1.20", 40000)) {
        ServerAction::Forward(e) => assert_eq!((e.ip.as_str(), e.port), ("10.0.0.9", 7000)),
        _ => panic!("a long datagram is relayed"),
    }
    assert!(reg.is_running(&"10.0.0.5:6000".to_string()));
}

#[test]
fn placeholder_left_with_reading_still_means_no_client() {
    let s = relay("0.0.0.0:0000", Some(ep("0.0.0.0", 0)));
    assert!(s.left_address().is_none());
}

#[test]
fn endpoint_text_and_equality() {
    let a = ep("::1", 80);
    assert_eq!(a.text(), "::1:80");
    assert_eq!(ep("10.0.0.1", 0).text(), "10.0.0.1:0");
    assert_eq!(ep("10.0.0.1", 65535).text(), "10.0.0.1:65535");
    assert!(a.same_as(&ep("::1", 80)));
    assert!(!a.same_as(&ep("::1", 81)));
    assert!(!a.same_as(&ep("::2", 80)));
}
