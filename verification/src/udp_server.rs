//! A relay: a UDP endpoint that forwards what the right side (the server)
//! sends to the left side (the client), and everything else to the right
//! side, learning the left side from the traffic.

use crate::net::{endpoint_text, Endpoint, EndpointView};
use crate::registry::{now_millis, UdpRegistry};
use crate::report::{AddrInfo, ReportPacket, ReportView, STATE_RUNNING, STATE_STOPPED};
use crate::text::{decimal, push_decimal};
use vstd::prelude::*;
use vstd::string::*;

verus! {

/// The left address that stands for "no client yet".
pub const NO_LEFT_ADDRESS: &'static str = "0.0.0.0:0000";

/// Why a relay cannot be set up: which of its addresses has no reading as
/// a socket address.
pub enum AddressError {
    InvalidLeft,
    InvalidRight,
    InvalidSelf,
}

/// A relay between a client (left) and a server (right).
pub struct Server {
    left_address: Option<Endpoint>,
    raw_left_address: String,
    right_address: Endpoint,
    raw_right_address: String,
    self_address: Endpoint,
    raw_self_address: String,
}

/// The mathematical value of a [`Server`].
pub struct ServerView {
    pub left: Option<EndpointView>,
    pub raw_left: Seq<char>,
    pub right: EndpointView,
    pub raw_right: Seq<char>,
    pub self_addr: EndpointView,
    pub raw_self: Seq<char>,
}

/// The value of an optional endpoint.
pub open spec fn opt_endpoint_view(e: Option<Endpoint>) -> Option<EndpointView> {
    match e {
        Some(x) => Some(x@),
        None => None,
    }
}

impl View for Server {
    type V = ServerView;

    closed spec fn view(&self) -> ServerView {
        ServerView {
            left: opt_endpoint_view(self.left_address),
            raw_left: self.raw_left_address@,
            right: self.right_address@,
            raw_right: self.raw_right_address@,
            self_addr: self.self_address@,
            raw_self: self.raw_self_address@,
        }
    }
}

/// Which address keeps a relay from being set up, given its left address
/// text and the readings of its three addresses as socket addresses: the
/// left address must be the placeholder [`NO_LEFT_ADDRESS`] or have a
/// reading, then the right one, then the relay's own; the first that fails
/// is named.
pub open spec fn setup_failure(
    left_address: Seq<char>,
    left_parsed: Option<EndpointView>,
    self_parsed: Option<EndpointView>,
    right_parsed: Option<EndpointView>,
) -> Option<AddressError> {
    if left_address != NO_LEFT_ADDRESS@ && left_parsed is None {
        Some(AddressError::InvalidLeft)
    } else if right_parsed is None {
        Some(AddressError::InvalidRight)
    } else if self_parsed is None {
        Some(AddressError::InvalidSelf)
    } else {
        None
    }
}

/// The relay set up from usable addresses: no left side when the left
/// address is the placeholder, else the left reading; the right and own
/// readings; and the three texts.
pub open spec fn setup_state(
    left_address: Seq<char>,
    self_address: Seq<char>,
    right_address: Seq<char>,
    left_parsed: Option<EndpointView>,
    self_parsed: Option<EndpointView>,
    right_parsed: Option<EndpointView>,
) -> ServerView {
    ServerView {
        left: if left_address == NO_LEFT_ADDRESS@ {
            None
        } else {
            left_parsed
        },
        raw_left: left_address,
        right: right_parsed->0,
        raw_right: right_address,
        self_addr: self_parsed->0,
        raw_self: self_address,
    }
}

/// Whether a datagram of `size` bytes, received into `buf`, is the quit
/// command: exactly the four bytes `quit`.
pub open spec fn is_quit(buf: Seq<u8>, size: nat) -> bool {
    &&& size == 4
    &&& buf.len() >= 4
    &&& buf[0] == 113u8
    &&& buf[1] == 117u8
    &&& buf[2] == 105u8
    &&& buf[3] == 116u8
}

/// The relay after a datagram other than the quit command: a non-empty
/// datagram from anyone but the right side makes its sender the left side.
pub open spec fn after_datagram(s: ServerView, size: nat, peer: EndpointView) -> ServerView {
    if size == 0 || peer == s.right {
        s
    } else {
        ServerView { left: Some(peer), raw_left: endpoint_text(peer), ..s }
    }
}

/// Where a non-empty datagram other than the quit command is forwarded:
/// from the right side to the left side (if one is known), from anyone else
/// to the right side.
pub open spec fn forward_target(s: ServerView, peer: EndpointView) -> Option<EndpointView> {
    if peer == s.right {
        s.left
    } else {
        Some(s.right)
    }
}

/// The status report of a relay in a given state.
pub open spec fn status_report(s: ServerView, state: i8) -> ReportView {
    ReportView {
        addr: s.raw_self,
        state,
        ip: s.self_addr.ip,
        left: s.raw_left,
        self_addr: s.raw_self,
        right: s.raw_right,
    }
}

/// What a relay does with a datagram.
pub enum ServerAction {
    /// The quit command: send this report and stop.
    Stop(ReportPacket),
    /// An empty datagram: nothing to do.
    Ignore,
    /// From the right side while no left side is known: drop it.
    NoLeft,
    /// Send the datagram's bytes to this endpoint.
    Forward(Endpoint),
}

impl Server {
    /// Which address, if any, keeps a relay from being set up.
    pub fn setup_error(
        left_address: &String,
        left_parsed: &Option<Endpoint>,
        self_parsed: &Option<Endpoint>,
        right_parsed: &Option<Endpoint>,
    ) -> (e: Option<AddressError>)
        ensures
            e == setup_failure(
                left_address@,
                opt_endpoint_view(*left_parsed),
                opt_endpoint_view(*self_parsed),
                opt_endpoint_view(*right_parsed),
            ),
    {
        let no_left = crate::text::str_eq(left_address.as_str(), NO_LEFT_ADDRESS);
        if !no_left && left_parsed.is_none() {
            Some(AddressError::InvalidLeft)
        } else if right_parsed.is_none() {
            Some(AddressError::InvalidRight)
        } else if self_parsed.is_none() {
            Some(AddressError::InvalidSelf)
        } else {
            None
        }
    }

    /// Sets up a relay from its three addresses and their readings as
    /// socket addresses (`None` where the text has none). The addresses
    /// must be usable: [`Server::setup_error`] tells which one is not.
    pub fn new(
        left_address: String,
        self_address: String,
        right_address: String,
        left_parsed: Option<Endpoint>,
        self_parsed: Option<Endpoint>,
        right_parsed: Option<Endpoint>,
    ) -> (r: Server)
        requires
            setup_failure(
                left_address@,
                opt_endpoint_view(left_parsed),
                opt_endpoint_view(self_parsed),
                opt_endpoint_view(right_parsed),
            ) is None,
        ensures
            r@ == setup_state(
                left_address@,
                self_address@,
                right_address@,
                opt_endpoint_view(left_parsed),
                opt_endpoint_view(self_parsed),
                opt_endpoint_view(right_parsed),
            ),
    {
        let no_left = crate::text::str_eq(left_address.as_str(), NO_LEFT_ADDRESS);
        let left = if no_left {
            None
        } else {
            left_parsed
        };
        Server {
            left_address: left,
            raw_left_address: left_address,
            right_address: right_parsed.unwrap(),
            raw_right_address: right_address,
            self_address: self_parsed.unwrap(),
            raw_self_address: self_address,
        }
    }

    /// The address on which the relay's socket is bound: every interface,
    /// at the port of its own address.
    pub fn bind_address(&self) -> (a: String)
        ensures
            a@ == "0.0.0.0:"@ + decimal(self@.self_addr.port as nat),
    {
        let mut a = String::new();
        a.append("0.0.0.0:");
        push_decimal(&mut a, self.self_address.port);
        assert(a@ =~= "0.0.0.0:"@ + decimal(self@.self_addr.port as nat));
        a
    }

    /// The relay's status report in state `state`.
    pub fn report(&self, state: i8) -> (p: ReportPacket)
        ensures
            p@ == status_report(self@, state),
    {
        ReportPacket::new(
            self.raw_self_address.clone(),
            state,
            self.self_address.ip.clone(),
            AddrInfo::new(
                self.raw_left_address.clone(),
                self.raw_self_address.clone(),
                self.raw_right_address.clone(),
            ),
        )
    }

    /// The socket is bound at time `now`: the relay registers itself as
    /// active at `now` and reports that it is running.
    pub fn on_bound_at(&self, registry: &mut UdpRegistry, now: i64) -> (p: ReportPacket)
        ensures
            final(registry)@ == old(registry)@.insert(self@.raw_self, now),
            p@ == status_report(self@, STATE_RUNNING),
    {
        registry.record(&self.raw_self_address, now);
        self.report(STATE_RUNNING)
    }

    /// The socket is bound: the relay registers itself as active at the
    /// current time and reports that it is running.
    pub fn on_bound(&self, registry: &mut UdpRegistry) -> (p: ReportPacket)
        ensures
            final(registry)@ == old(registry)@.insert(self@.raw_self, final(registry)@[self@.raw_self]),
            final(registry)@[self@.raw_self] >= 0,
            p@ == status_report(self@, STATE_RUNNING),
    {
        let now: i64 = now_millis();
        self.on_bound_at(registry, now)
    }

    /// Whether the first `size` bytes received into `buf` are the quit command.
    pub fn is_quit_packet(buf: &[u8], size: usize) -> (b: bool)
        ensures
            b == is_quit(buf@, size as nat),
    {
        size == 4 && buf.len() >= 4 && buf[0] == 113u8 && buf[1] == 117u8 && buf[2] == 105u8
            && buf[3] == 116u8
    }

    /// Handles, at time `now`, a datagram of `size` bytes received into
    /// `buf` from `peer`.
    pub fn on_datagram_at(
        &mut self,
        registry: &mut UdpRegistry,
        buf: &[u8],
        size: usize,
        peer: Endpoint,
        now: i64,
    ) -> (a: ServerAction)
        ensures
            is_quit(buf@, size as nat) ==> {
                &&& final(self)@ == old(self)@
                &&& final(registry)@ == old(registry)@
                &&& a matches ServerAction::Stop(p) && p@ == status_report(old(self)@, STATE_STOPPED)
            },
            !is_quit(buf@, size as nat) ==> final(self)@ == after_datagram(old(self)@, size as nat, peer@),
            !is_quit(buf@, size as nat) && size == 0 ==> {
                &&& final(registry)@ == old(registry)@
                &&& a is Ignore
            },
            !is_quit(buf@, size as nat) && size > 0 ==> {
                &&& final(registry)@ == old(registry)@.insert(old(self)@.raw_self, now)
                &&& match forward_target(old(self)@, peer@) {
                    None => a is NoLeft,
                    Some(t) => a matches ServerAction::Forward(e) && e@ == t,
                }
            },
    {
        if Self::is_quit_packet(buf, size) {
            return ServerAction::Stop(self.report(STATE_STOPPED));
        }
        if size == 0 {
            return ServerAction::Ignore;
        }
        registry.record(&self.raw_self_address, now);
        if peer.same_as(&self.right_address) {
            match &self.left_address {
                None => ServerAction::NoLeft,
                Some(l) => ServerAction::Forward(l.clone()),
            }
        } else {
            self.raw_left_address = peer.text();
            self.left_address = Some(peer);
            ServerAction::Forward(self.right_address.clone())
        }
    }

    /// Handles a datagram of `size` bytes received into `buf` from `peer`,
    /// at the current time.
    pub fn on_datagram(&mut self, registry: &mut UdpRegistry, buf: &[u8], size: usize, peer: Endpoint) -> (a:
        ServerAction)
        ensures
            is_quit(buf@, size as nat) ==> {
                &&& final(self)@ == old(self)@
                &&& final(registry)@ == old(registry)@
                &&& a matches ServerAction::Stop(p) && p@ == status_report(old(self)@, STATE_STOPPED)
            },
            !is_quit(buf@, size as nat) ==> final(self)@ == after_datagram(old(self)@, size as nat, peer@),
            !is_quit(buf@, size as nat) && size == 0 ==> {
                &&& final(registry)@ == old(registry)@
                &&& a is Ignore
            },
            !is_quit(buf@, size as nat) && size > 0 ==> {
                &&& final(registry)@ == old(registry)@.insert(
                    old(self)@.raw_self,
                    final(registry)@[old(self)@.raw_self],
                )
                &&& final(registry)@[old(self)@.raw_self] >= 0
                &&& match forward_target(old(self)@, peer@) {
                    None => a is NoLeft,
                    Some(t) => a matches ServerAction::Forward(e) && e@ == t,
                }
            },
    {
        let now: i64 = now_millis();
        self.on_datagram_at(registry, buf, size, peer, now)
    }

    /// The left side (client), once known.
    pub fn left_address(&self) -> (l: Option<Endpoint>)
        ensures
            opt_endpoint_view(l) == self@.left,
    {
        match &self.left_address {
            Some(e) => Some(e.clone()),
            None => None,
        }
    }

    /// The left address as text.
    pub fn raw_left_address(&self) -> (s: &String)
        ensures
            s@ == self@.raw_left,
    {
        &self.raw_left_address
    }

    /// The right side (server).
    pub fn right_address(&self) -> (e: &Endpoint)
        ensures
            e@ == self@.right,
    {
        &self.right_address
    }

    /// The right address as text.
    pub fn raw_right_address(&self) -> (s: &String)
        ensures
            s@ == self@.raw_right,
    {
        &self.raw_right_address
    }

    /// The relay's own address.
    pub fn self_address(&self) -> (e: &Endpoint)
        ensures
            e@ == self@.self_addr,
    {
        &self.self_address
    }

    /// The relay's own address as text.
    pub fn raw_self_address(&self) -> (s: &String)
        ensures
            s@ == self@.raw_self,
    {
        &self.raw_self_address
    }
}

/// Once a client has sent a non-empty datagram, what the right side sends
/// next goes to that client, and what any other client sends still goes to
/// the right side.
pub proof fn lemma_sender_becomes_left(s: ServerView, size: nat, peer: EndpointView, other: EndpointView)
    requires
        size > 0,
        peer != s.right,
        other != s.right,
    ensures
        forward_target(after_datagram(s, size, peer), s.right) == Some(peer),
        after_datagram(s, size, peer).raw_left == endpoint_text(peer),
        forward_target(after_datagram(s, size, peer), other) == Some(s.right),
{
}

/// The quit decision reads only the datagram itself: two receive buffers
/// that agree on the first `size` bytes give the same decision, whatever
/// lies beyond them.
pub proof fn lemma_quit_reads_only_the_datagram(buf1: Seq<u8>, buf2: Seq<u8>, size: nat)
    requires
        size <= buf1.len(),
        size <= buf2.len(),
        buf1.take(size as int) == buf2.take(size as int),
    ensures
        is_quit(buf1, size) == is_quit(buf2, size),
{
    if size == 4 {
        assert(buf1[0] == buf1.take(4)[0]);
        assert(buf2[0] == buf2.take(4)[0]);
        assert(buf1[1] == buf1.take(4)[1]);
        assert(buf2[1] == buf2.take(4)[1]);
        assert(buf1[2] == buf1.take(4)[2]);
        assert(buf2[2] == buf2.take(4)[2]);
        assert(buf1[3] == buf1.take(4)[3]);
        assert(buf2[3] == buf2.take(4)[3]);
    }
}

/// A datagram is the quit command exactly when it is the four bytes
/// `q`, `u`, `i`, `t`.
pub proof fn lemma_quit_is_exactly_the_four_bytes(buf: Seq<u8>, size: nat)
    requires
        size <= buf.len(),
    ensures
        is_quit(buf, size) <==> (size == 4 && buf.take(size as int) == seq![113u8, 117u8, 105u8, 116u8]),
{
    if size == 4 {
        if buf.take(4) == seq![113u8, 117u8, 105u8, 116u8] {
            assert(buf[0] == buf.take(4)[0]);
            assert(buf[1] == buf.take(4)[1]);
            assert(buf[2] == buf.take(4)[2]);
            assert(buf[3] == buf.take(4)[3]);
        }
        if is_quit(buf, size) {
            assert(buf.take(4) =~= seq![113u8, 117u8, 105u8, 116u8]);
        }
    }
}

/// Datagrams from the right side never change the relay.
pub proof fn lemma_right_side_keeps_relay(s: ServerView, size: nat)
    ensures
        after_datagram(s, size, s.right) == s,
{
}

/// Of two clients that send in turn, the later one is the left side.
pub proof fn lemma_latest_client_is_left(
    s: ServerView,
    size1: nat,
    p1: EndpointView,
    size2: nat,
    p2: EndpointView,
)
    requires
        size1 > 0,
        size2 > 0,
        p1 != s.right,
        p2 != s.right,
    ensures
        after_datagram(after_datagram(s, size1, p1), size2, p2).left == Some(p2),
        forward_target(after_datagram(after_datagram(s, size1, p1), size2, p2), s.right) == Some(p2),
{
}

/// The right side, the relay's own address and the address texts other than
/// the left one never change with traffic.
pub proof fn lemma_traffic_keeps_fixed_addresses(s: ServerView, size: nat, peer: EndpointView)
    ensures
        after_datagram(s, size, peer).right == s.right,
        after_datagram(s, size, peer).self_addr == s.self_addr,
        after_datagram(s, size, peer).raw_right == s.raw_right,
        after_datagram(s, size, peer).raw_self == s.raw_self,
{
}

} // verus!
