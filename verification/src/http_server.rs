//! The control web service: which handler a request goes to, what each
//! handler answers, and when a bind request starts a new relay.

use crate::registry::UdpRegistry;
use crate::text::str_eq;
use vstd::prelude::*;
use vstd::string::*;

verus! {

/// Where the control web service listens.
pub struct HttpConfig {
    addr: String,
}

impl View for HttpConfig {
    type V = Seq<char>;

    closed spec fn view(&self) -> Seq<char> {
        self.addr@
    }
}

impl HttpConfig {
    /// A configuration listening on `addr`.
    pub fn new(addr: String) -> (c: HttpConfig)
        ensures
            c@ == addr@,
    {
        HttpConfig { addr }
    }

    /// The listening address.
    pub fn addr(&self) -> (a: &String)
        ensures
            a@ == self@,
    {
        &self.addr
    }
}

/// The request methods the service tells apart.
pub enum HttpMethod {
    Get,
    Post,
    Other,
}

/// The handler a request goes to.
pub enum Route {
    BindUdp,
    Monitor,
    PingUdp,
    NotFound,
}

/// Path of the bind request (POST).
pub const BIND_UDP_PATH: &'static str = "/udp/bindUdp";

/// Path of the monitor request (GET).
pub const MONITOR_PATH: &'static str = "/udp/monitor";

/// Path of the ping request (GET).
pub const PING_UDP_PATH: &'static str = "/udp/pingUdp";

/// Message of the answer to a request that no handler takes.
pub const NOT_FOUND_MESSAGE: &'static str = "接口无法找到!";

/// The handler for a method and path.
pub open spec fn route_of(method: HttpMethod, path: Seq<char>) -> Route {
    if method is Post && path == BIND_UDP_PATH@ {
        Route::BindUdp
    } else if method is Get && path == MONITOR_PATH@ {
        Route::Monitor
    } else if method is Get && path == PING_UDP_PATH@ {
        Route::PingUdp
    } else {
        Route::NotFound
    }
}

/// Chooses the handler of a request.
pub fn route(method: HttpMethod, path: &str) -> (r: Route)
    ensures
        r == route_of(method, path@),
{
    match method {
        HttpMethod::Post => {
            if str_eq(path, BIND_UDP_PATH) {
                return Route::BindUdp;
            }
        },
        HttpMethod::Get => {
            if str_eq(path, MONITOR_PATH) {
                return Route::Monitor;
            }
            if str_eq(path, PING_UDP_PATH) {
                return Route::PingUdp;
            }
        },
        HttpMethod::Other => {},
    }
    Route::NotFound
}

/// An answer of the service: the HTTP status, and the `code` and `message`
/// of its JSON body.
pub struct Reply {
    pub status: u16,
    pub code: i16,
    pub message: String,
}

/// The answer to a request that no handler takes: 404, code 0, and a
/// message that says so.
pub fn not_found_reply() -> (r: Reply)
    ensures
        r.status == 404,
        r.code == 0,
        r.message@ == NOT_FOUND_MESSAGE@,
{
    Reply { status: 404, code: 0, message: NOT_FOUND_MESSAGE.to_owned() }
}

/// The answer to a ping: 200, code 0, empty message.
pub fn ping_reply() -> (r: Reply)
    ensures
        r.status == 200,
        r.code == 0,
        r.message@ == Seq::<char>::empty(),
{
    Reply { status: 200, code: 0, message: String::new() }
}

/// The answer to a bind request, whether or not it started a relay: 200,
/// code 0, empty message.
pub fn bind_reply() -> (r: Reply)
    ensures
        r.status == 200,
        r.code == 0,
        r.message@ == Seq::<char>::empty(),
{
    Reply { status: 200, code: 0, message: String::new() }
}

/// The answer to a monitor request: 200, code 200, empty message, and the
/// registry's relays with the time each was last active.
pub struct MonitorReply {
    pub status: u16,
    pub code: i16,
    pub message: String,
    pub relays: Vec<(String, i64)>,
}

/// Answers a monitor request from the registry.
pub fn monitor_reply(registry: &UdpRegistry) -> (r: MonitorReply)
    ensures
        r.status == 200,
        r.code == 200,
        r.message@ == Seq::<char>::empty(),
        forall|i: int, j: int|
            0 <= i < r.relays@.len() && 0 <= j < r.relays@.len() && i != j ==> (#[trigger] r.relays@[i]).0@
                != (#[trigger] r.relays@[j]).0@,
        forall|i: int|
            0 <= i < r.relays@.len() ==> registry@.contains_key((#[trigger] r.relays@[i]).0@)
                && registry@[r.relays@[i].0@] == r.relays@[i].1,
        forall|k: Seq<char>|
            #[trigger] registry@.contains_key(k) ==> exists|i: int|
                0 <= i < r.relays@.len() && (#[trigger] r.relays@[i]).0@ == k,
{
    let relays = registry.snapshot();
    let r = MonitorReply { status: 200, code: 200, message: String::new(), relays };
    assert forall|k: Seq<char>| #[trigger] registry@.contains_key(k) implies exists|i: int|
        0 <= i < r.relays@.len() && (#[trigger] r.relays@[i]).0@ == k by {
        let i: int = choose|i: int| 0 <= i < relays@.len() && (#[trigger] relays@[i]).0@ == k;
        assert(r.relays@[i] == relays@[i]);
    }
    r
}

/// A bind request: the three addresses of the relay the master asks for.
#[allow(non_snake_case)]
pub struct BindRequest {
    pub leftAddr: String,
    pub selfAddr: String,
    pub rightAddr: String,
}

impl BindRequest {
    /// A request for the relay at `selfAddr` between `leftAddr` and `rightAddr`.
    #[allow(non_snake_case)]
    pub fn new(leftAddr: String, selfAddr: String, rightAddr: String) -> (r: Self)
        ensures
            r.leftAddr@ == leftAddr@,
            r.selfAddr@ == selfAddr@,
            r.rightAddr@ == rightAddr@,
    {
        BindRequest { leftAddr, selfAddr, rightAddr }
    }
}

/// Whether a bind request for the relay at `self_addr` must start a new
/// relay: exactly when no relay serving that address is registered.
pub fn should_start_udp_server(registry: &UdpRegistry, self_addr: &String) -> (b: bool)
    ensures
        b == !registry@.contains_key(self_addr@),
{
    !registry.is_running(self_addr)
}

} // verus!
