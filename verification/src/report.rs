//! The status report a relay sends to the master.

use vstd::prelude::*;

verus! {

/// Status of a relay that has bound its socket and is forwarding.
pub const STATE_RUNNING: i8 = 2;

/// Status of a relay that has received the quit command and stopped.
pub const STATE_STOPPED: i8 = 0;

/// The three addresses a relay joins: the client side (left), its own, and
/// the server side (right).
#[allow(non_snake_case)]
pub struct AddrInfo {
    pub leftAddr: String,
    pub selfAddr: String,
    pub rightAddr: String,
}

/// A status report: the relay's address, its state, the IP address it is
/// bound to, and the addresses it joins.
pub struct ReportPacket {
    pub addr: String,
    pub state: i8,
    pub ip: String,
    pub data: AddrInfo,
}

/// The mathematical value of a [`ReportPacket`].
pub struct ReportView {
    pub addr: Seq<char>,
    pub state: i8,
    pub ip: Seq<char>,
    pub left: Seq<char>,
    pub self_addr: Seq<char>,
    pub right: Seq<char>,
}

impl View for ReportPacket {
    type V = ReportView;

    open spec fn view(&self) -> ReportView {
        ReportView {
            addr: self.addr@,
            state: self.state,
            ip: self.ip@,
            left: self.data.leftAddr@,
            self_addr: self.data.selfAddr@,
            right: self.data.rightAddr@,
        }
    }
}

impl AddrInfo {
    /// The addresses of a relay, left, own and right.
    #[allow(non_snake_case)]
    pub fn new(leftAddr: String, selfAddr: String, rightAddr: String) -> (r: Self)
        ensures
            r.leftAddr@ == leftAddr@,
            r.selfAddr@ == selfAddr@,
            r.rightAddr@ == rightAddr@,
    {
        AddrInfo { leftAddr, selfAddr, rightAddr }
    }
}

impl ReportPacket {
    /// The report of relay `addr`, in state `state`, bound to `ip`.
    pub fn new(addr: String, state: i8, ip: String, data: AddrInfo) -> (r: Self)
        ensures
            r@ == (ReportView {
                addr: addr@,
                state,
                ip: ip@,
                left: data.leftAddr@,
                self_addr: data.selfAddr@,
                right: data.rightAddr@,
            }),
    {
        ReportPacket { addr, state, ip, data }
    }
}

} // verus!
