//! Network endpoints as the relay logic sees them: the textual form of an
//! IP address and a port.

use crate::text::{decimal, push_decimal};
use vstd::prelude::*;
use vstd::string::*;

verus! {

/// A socket address: the IP address in its standard textual form (as
/// `IpAddr`'s `Display` writes it) and the port.
pub struct Endpoint {
    pub ip: String,
    pub port: u16,
}

/// The mathematical value of an [`Endpoint`].
pub struct EndpointView {
    pub ip: Seq<char>,
    pub port: u16,
}

impl View for Endpoint {
    type V = EndpointView;

    open spec fn view(&self) -> EndpointView {
        EndpointView { ip: self.ip@, port: self.port }
    }
}

impl Clone for Endpoint {
    fn clone(&self) -> (r: Self)
        ensures
            r@ == self@,
    {
        Endpoint { ip: self.ip.clone(), port: self.port }
    }
}

/// `ip:port`, the port in decimal.
pub open spec fn endpoint_text(e: EndpointView) -> Seq<char> {
    e.ip + seq![':'] + decimal(e.port as nat)
}

impl Endpoint {
    /// An endpoint from the textual IP address and the port.
    pub fn new(ip: String, port: u16) -> (r: Self)
        ensures
            r@ == (EndpointView { ip: ip@, port }),
    {
        Endpoint { ip, port }
    }

    /// Whether two endpoints have the same IP address and the same port.
    pub fn same_as(&self, other: &Endpoint) -> (b: bool)
        ensures
            b == (self@ == other@),
    {
        self.ip == other.ip && self.port == other.port
    }

    /// The text `ip:port`.
    pub fn text(&self) -> (t: String)
        ensures
            t@ == endpoint_text(self@),
    {
        let mut t = self.ip.clone();
        proof {
            reveal_strlit(":");
        }
        t.append(":");
        push_decimal(&mut t, self.port);
        assert(t@ =~= endpoint_text(self@));
        t
    }
}

} // verus!
